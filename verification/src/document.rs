use vstd::prelude::*;
use vstd::utf8::*;
use crate::ctext::CText;
use crate::error::{FileErrorKind, PopplerError};
use crate::utf8::is_valid_utf8;

verus! {

/// Where a document was opened from, kept for the page-text extraction,
/// which opens the document again on its own.
#[derive(Debug)]
pub enum DocumentSource {
    /// A `file:///` URI, as a C string.
    File { uri: CText },
    /// A copy of the bytes of the document.
    Data { data: Vec<u8> },
}

/// What a Poppler document keeps besides Poppler's own handle: its source
/// and its password, as a C string.
#[derive(Debug)]
pub struct PopplerDocument {
    pub source: DocumentSource,
    pub pw: CText,
}

/// The message when a password holds a NUL character.
pub open spec fn password_message() -> Seq<char> {
    "Password invalid (possibly contains NUL characters)"@
}

/// The message when the data of a document is empty.
pub open spec fn empty_data_message() -> Seq<char> {
    "data is empty"@
}

/// The message when a path cannot be made canonical.
pub open spec fn missing_path_message() -> Seq<char> {
    "Could not turn path into canonical path. Maybe it does not exist?"@
}

/// The message when a canonical path is not UTF-8.
pub open spec fn non_utf8_path_message() -> Seq<char> {
    "Path invalid (contains non-utf8 characters)"@
}

/// The message when a canonical path holds a NUL character.
pub open spec fn nul_path_message() -> Seq<char> {
    "Path invalid (contains NUL characters)"@
}

/// The password bytes: those of the given text, and none when it is absent.
pub open spec fn password_bytes(password: Option<&str>) -> Seq<u8> {
    match password {
        Some(p) => encode_utf8(p@),
        None => Seq::empty(),
    }
}

/// The view of an optional byte slice.
pub open spec fn opt_view(o: Option<&[u8]>) -> Option<Seq<u8>> {
    match o {
        Some(b) => Some(b@),
        None => None,
    }
}

/// The bytes of the scheme that starts every file URI: `file:///`.
pub open spec fn file_scheme() -> Seq<u8> {
    seq![0x66u8, 0x69u8, 0x6cu8, 0x65u8, 0x3au8, 0x2fu8, 0x2fu8, 0x2fu8]
}

/// Why a canonical path cannot become a file URI, if it cannot: the error
/// code and message. `None` stands for a path that could not be made canonical.
pub open spec fn uri_problem(canonical: Option<Seq<u8>>) -> Option<(FileErrorKind, Seq<char>)> {
    match canonical {
        None => Some((FileErrorKind::Noent, missing_path_message())),
        Some(b) => if !valid_utf8(b) {
            Some((FileErrorKind::Inval, non_utf8_path_message()))
        } else if b.contains(0u8) {
            Some((FileErrorKind::Inval, nul_path_message()))
        } else {
            None
        },
    }
}

/// The file URI that GLib is given for a canonical path.
pub open spec fn file_uri(canonical: Seq<u8>) -> Seq<u8> {
    file_scheme() + canonical
}

/// `file_scheme()` has no NUL in it.
proof fn lemma_file_scheme_has_no_nul()
    ensures
        !file_scheme().contains(0u8),
{
    assert forall|i: int| 0 <= i < file_scheme().len() implies file_scheme()[i] != 0u8 by {}
}

/// True when `r` is an error with the given code and message.
pub open spec fn fails_with<T>(r: Result<T, PopplerError>, kind: FileErrorKind, msg: Seq<char>) -> bool {
    r matches Err(e) && e.is(kind, msg)
}

impl PopplerDocument {
    /// The password as a C string; an absent password is the empty one.
    pub fn get_password(password: Option<&str>) -> (r: Result<CText, PopplerError>)
        ensures
            r is Ok <==> !password_bytes(password).contains(0u8),
            r matches Ok(pw) ==> pw@ == password_bytes(password),
            r is Err ==> fails_with(r, FileErrorKind::Inval, password_message()),
    {
        let t = match password {
            Some(p) => CText::new(p.as_bytes()),
            None => {
                let empty: Vec<u8> = Vec::new();
                CText::new(empty.as_slice())
            },
        };
        match t {
            Some(pw) => Ok(pw),
            None => Err(PopplerError::new(
                FileErrorKind::Inval,
                "Password invalid (possibly contains NUL characters)",
            )),
        }
    }

    /// Checks the data and password of a document read from memory, and
    /// keeps a copy of the data. Empty data is refused before the password
    /// is looked at.
    pub fn new_from_data(data: &[u8], password: Option<&str>) -> (r: Result<PopplerDocument, PopplerError>)
        ensures
            data@.len() == 0 ==> fails_with(r, FileErrorKind::Inval, empty_data_message()),
            data@.len() > 0 ==> (r is Ok <==> !password_bytes(password).contains(0u8)),
            data@.len() > 0 && r is Err ==> fails_with(r, FileErrorKind::Inval, password_message()),
            r matches Ok(doc) ==> doc.pw@ == password_bytes(password)
                && (doc.source matches DocumentSource::Data { data: d } && d@ == data@),
    {
        if data.len() == 0 {
            return Err(PopplerError::new(FileErrorKind::Inval, "data is empty"));
        }
        let pw = Self::get_password(password)?;
        let copy = copy_bytes(data);
        Ok(PopplerDocument { source: DocumentSource::Data { data: copy }, pw })
    }

    /// Checks the password and the canonical path of a document on disk, and
    /// keeps its file URI. `canonical` is `None` where the path could not be
    /// made canonical. The password is checked first.
    pub fn new_from_file(canonical: Option<&[u8]>, password: Option<&str>) -> (r: Result<PopplerDocument, PopplerError>)
        ensures
            password_bytes(password).contains(0u8) ==> fails_with(r, FileErrorKind::Inval, password_message()),
            !password_bytes(password).contains(0u8) ==> match uri_problem(opt_view(canonical)) {
                Some((kind, msg)) => fails_with(r, kind, msg),
                None => r is Ok,
            },
            r matches Ok(doc) ==> doc.pw@ == password_bytes(password)
                && (doc.source matches DocumentSource::File { uri } && uri@ == file_uri(opt_view(canonical)->Some_0)),
    {
        let pw = Self::get_password(password)?;
        let uri = path_to_glib_url(canonical)?;
        Ok(PopplerDocument { source: DocumentSource::File { uri }, pw })
    }
}

/// Copies a byte slice into a vector.
fn copy_bytes(data: &[u8]) -> (v: Vec<u8>)
    ensures
        v@ == data@,
{
    let mut v: Vec<u8> = Vec::new();
    let n = data.len();
    let mut i: usize = 0;
    while i < n
        invariant
            n == data@.len(),
            i <= n,
            v@ == data@.subrange(0, i as int),
        decreases n - i,
    {
        v.push(data[i]);
        assert(v@ =~= data@.subrange(0, (i + 1) as int));
        i = i + 1;
    }
    assert(v@ =~= data@);
    v
}

/// Turns a canonical path into the `file:///` URI that GLib opens, as a C
/// string. `canonical` holds the bytes of the canonical path, or is `None`
/// where the path could not be made canonical.
pub fn path_to_glib_url(canonical: Option<&[u8]>) -> (r: Result<CText, PopplerError>)
    ensures
        match uri_problem(opt_view(canonical)) {
            Some((kind, msg)) => fails_with(r, kind, msg),
            None => r matches Ok(u) && u@ == file_uri(opt_view(canonical)->Some_0),
        },
{
    let path = match canonical {
        None => {
            return Err(PopplerError::new(
                FileErrorKind::Noent,
                "Could not turn path into canonical path. Maybe it does not exist?",
            ));
        },
        Some(p) => p,
    };
    if !is_valid_utf8(path) {
        return Err(PopplerError::new(
            FileErrorKind::Inval,
            "Path invalid (contains non-utf8 characters)",
        ));
    }
    let mut uri: Vec<u8> = Vec::new();
    uri.push(0x66u8);
    uri.push(0x69u8);
    uri.push(0x6cu8);
    uri.push(0x65u8);
    uri.push(0x3au8);
    uri.push(0x2fu8);
    uri.push(0x2fu8);
    uri.push(0x2fu8);
    assert(uri@ =~= file_scheme());
    let n = path.len();
    let mut i: usize = 0;
    while i < n
        invariant
            n == path@.len(),
            i <= n,
            uri@ == file_scheme() + path@.subrange(0, i as int),
        decreases n - i,
    {
        uri.push(path[i]);
        assert(uri@ =~= file_scheme() + path@.subrange(0, (i + 1) as int));
        i = i + 1;
    }
    assert(path@.subrange(0, n as int) =~= path@);
    proof {
        lemma_file_scheme_has_no_nul();
        if path@.contains(0u8) {
            let k = choose|k: int| 0 <= k < path@.len() && path@[k] == 0u8;
            assert(uri@[8 + k] == 0u8);
        }
        if uri@.contains(0u8) {
            let k = choose|k: int| 0 <= k < uri@.len() && uri@[k] == 0u8;
            if k < 8 {
                assert(file_scheme()[k] == 0u8);
            } else {
                assert(path@[k - 8] == 0u8);
            }
        }
    }
    match CText::new(uri.as_slice()) {
        Some(u) => Ok(u),
        None => Err(PopplerError::new(
            FileErrorKind::Inval,
            "Path invalid (contains NUL characters)",
        )),
    }
}

} // verus!

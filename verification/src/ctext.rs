use vstd::prelude::*;

verus! {

/// Bytes laid out as a C string: the content, then one terminating NUL,
/// with no NUL inside the content.
#[derive(Debug)]
pub struct CText {
    bytes: Vec<u8>,
}

impl View for CText {
    type V = Seq<u8>;

    /// The content, without the terminating NUL.
    closed spec fn view(&self) -> Seq<u8> {
        self.bytes@.drop_last()
    }
}

impl CText {
    #[verifier::type_invariant]
    spec fn well_formed(self) -> bool {
        &&& self.bytes@.len() >= 1
        &&& self.bytes@.last() == 0u8
        &&& !self.bytes@.drop_last().contains(0u8)
    }

    /// Takes `content` as the text of a C string. There is none when `content`
    /// holds a NUL byte, which would end the string early in C.
    pub fn new(content: &[u8]) -> (r: Option<CText>)
        ensures
            r is None <==> content@.contains(0u8),
            r matches Some(t) ==> t@ == content@,
    {
        let mut bytes: Vec<u8> = Vec::new();
        let n = content.len();
        let mut i: usize = 0;
        while i < n
            invariant
                n == content@.len(),
                i <= n,
                bytes@ == content@.subrange(0, i as int),
                !bytes@.contains(0u8),
            decreases n - i,
        {
            let b = content[i];
            if b == 0 {
                assert(content@[i as int] == 0u8);
                return None;
            }
            bytes.push(b);
            assert(bytes@ =~= content@.subrange(0, (i + 1) as int));
            i = i + 1;
        }
        assert(bytes@ =~= content@);
        let ghost body = bytes@;
        bytes.push(0u8);
        assert(bytes@.drop_last() =~= body);
        Some(CText { bytes })
    }

    /// The bytes handed to C: the content followed by the terminating NUL.
    pub fn as_bytes_with_nul(&self) -> (b: &[u8])
        ensures
            b@ == self@.push(0u8),
            !self@.contains(0u8),
    {
        proof {
            use_type_invariant(self);
        }
        assert(self.bytes@ =~= self.bytes@.drop_last().push(0u8));
        self.bytes.as_slice()
    }
}

} // verus!

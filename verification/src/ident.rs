use vstd::prelude::*;

verus! {

/// The longest caller-identity token the store accepts, in bytes.  The
/// hosting runtime's principals are at most 29 bytes long.
pub const MAX_ID_BYTES: usize = 29;

/// An opaque caller-identity token, supplied by the hosting runtime and
/// passed into every store operation.  The store reads nothing of it but
/// equality.
pub struct CallerId {
    bytes: Vec<u8>,
}

impl View for CallerId {
    type V = Seq<u8>;

    closed spec fn view(&self) -> Seq<u8> {
        self.bytes@
    }
}

impl CallerId {
    /// A token is well formed when it is no longer than `MAX_ID_BYTES`.
    pub open spec fn wf(&self) -> bool {
        self@.len() <= MAX_ID_BYTES
    }

    /// Wraps raw identity bytes; rejects anything longer than `MAX_ID_BYTES`.
    pub fn new(bytes: Vec<u8>) -> (r: Option<CallerId>)
        ensures
            bytes@.len() <= MAX_ID_BYTES ==> (r matches Some(c) && c@ == bytes@ && c.wf()),
            bytes@.len() > MAX_ID_BYTES ==> r is None,
    {
        if bytes.len() <= MAX_ID_BYTES {
            Some(CallerId { bytes })
        } else {
            None
        }
    }

    /// The raw identity bytes behind the token.
    pub fn as_bytes(&self) -> (r: &Vec<u8>)
        ensures
            r@ == self@,
    {
        &self.bytes
    }

    /// Whether two tokens name the same identity.
    pub fn same_as(&self, other: &CallerId) -> (r: bool)
        ensures
            r == (self@ == other@),
    {
        if self.bytes.len() != other.bytes.len() {
            proof {
                assert(self@ != other@);
            }
            return false;
        }
        let n = self.bytes.len();
        let mut i: usize = 0;
        while i < n
            invariant
                n == self.bytes@.len(),
                n == other.bytes@.len(),
                0 <= i <= n,
                forall|j: int| 0 <= j < i ==> self.bytes@[j] == other.bytes@[j],
            decreases n - i,
        {
            if self.bytes[i] != other.bytes[i] {
                return false;
            }
            i += 1;
        }
        proof {
            assert(self@ =~= other@);
        }
        true
    }

    /// A copy of the token that names the same identity.
    pub fn duplicate(&self) -> (r: CallerId)
        ensures
            r@ == self@,
    {
        let n = self.bytes.len();
        let mut out: Vec<u8> = Vec::new();
        let mut i: usize = 0;
        while i < n
            invariant
                n == self.bytes@.len(),
                0 <= i <= n,
                out@ == self.bytes@.subrange(0, i as int),
            decreases n - i,
        {
            out.push(self.bytes[i]);
            proof {
                assert(out@ =~= self.bytes@.subrange(0, i + 1));
            }
            i += 1;
        }
        proof {
            assert(out@ =~= self.bytes@);
        }
        CallerId { bytes: out }
    }
}

} // verus!

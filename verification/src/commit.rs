use vstd::prelude::*;

verus! {

/// Object id of a commit, held as its raw bytes.
#[derive(Clone, Debug, PartialEq, Eq)]
pub struct CommitId {
    pub id: Vec<u8>,
}

impl View for CommitId {
    type V = Seq<u8>;

    open spec fn view(&self) -> Seq<u8> {
        self.id@
    }
}

/// Number of characters of an abbreviated commit id.
pub const SHORT_ID_LEN: usize = 7;

/// The lowercase hexadecimal digit of a value below 16.
pub open spec fn hex_digit(n: int) -> char {
    if n < 10 {
        (48 + n) as char
    } else {
        (87 + n) as char
    }
}

/// Character `k` of the lowercase hexadecimal rendering of `bytes`: each byte
/// gives two digits, the high nibble first.
pub open spec fn hex_char_at(bytes: Seq<u8>, k: int) -> char {
    let b = bytes[k / 2];
    if k % 2 == 0 {
        hex_digit(b as int / 16)
    } else {
        hex_digit(b as int % 16)
    }
}

/// The full lowercase hexadecimal rendering of `bytes`.
pub open spec fn hex_string(bytes: Seq<u8>) -> Seq<char> {
    Seq::new(2 * bytes.len(), |k: int| hex_char_at(bytes, k))
}

/// The abbreviated rendering: the first seven hex digits (all of them if
/// there are fewer).
pub open spec fn short_hex(bytes: Seq<u8>) -> Seq<char> {
    let full = hex_string(bytes);
    if full.len() <= SHORT_ID_LEN {
        full
    } else {
        full.take(SHORT_ID_LEN as int)
    }
}

/// `String::push`, which the standard library documents as appending the
/// character to the end of the string: the new contents are the old ones
/// followed by `c`.
#[verifier::external_body]
fn push_char(s: &mut String, c: char)
    ensures
        final(s)@ == old(s)@.push(c),
{
    s.push(c);
}

fn hex_digit_char(n: u8) -> (c: char)
    requires
        n < 16,
    ensures
        c == hex_digit(n as int),
{
    if n < 10 {
        (n + 48) as char
    } else {
        (n + 87) as char
    }
}

impl CommitId {
    pub fn new(id: Vec<u8>) -> (r: Self)
        ensures
            r@ == id@,
    {
        CommitId { id }
    }

    /// The full lowercase hexadecimal form of the id.
    pub fn to_hex_string(&self) -> (s: String)
        requires
            2 * self@.len() <= usize::MAX,
        ensures
            s@ == hex_string(self@),
    {
        self.hex_prefix(2 * self.id.len())
    }

    /// The first seven hexadecimal digits of the id.
    pub fn get_short_string(&self) -> (s: String)
        ensures
            s@ == short_hex(self@),
    {
        let n = self.id.len();
        let limit: usize = if n < 4 { 2 * n } else { SHORT_ID_LEN };
        let s = self.hex_prefix(limit);
        assert(s@ =~= short_hex(self@));
        s
    }

    fn hex_prefix(&self, limit: usize) -> (s: String)
        requires
            limit <= 2 * self@.len(),
        ensures
            s@ == hex_string(self@).take(limit as int),
    {
        let ghost full = hex_string(self@);
        let mut s = String::new();
        let mut k: usize = 0;
        while k < limit
            invariant
                k <= limit,
                limit <= 2 * self@.len(),
                full == hex_string(self@),
                s@ == full.take(k as int),
            decreases limit - k,
        {
            let b = self.id[k / 2];
            let c = if k % 2 == 0 {
                hex_digit_char(b / 16)
            } else {
                hex_digit_char(b % 16)
            };
            push_char(&mut s, c);
            assert(s@ =~= full.take(k + 1));
            k = k + 1;
        }
        s
    }
}

} // verus!

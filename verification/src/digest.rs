//! SHA-256 content digests.

use vstd::prelude::*;

verus! {

/// A running SHA-256 computation of the `sha2` crate.
///
/// The verifier cannot take the declaration of `sha2::Sha256` (its type
/// parameters are bound by traits of `digest` and `typenum`), so the value is
/// kept behind this opaque struct and reached only through the three
/// functions below.
#[verifier::external_body]
pub struct Sha256State {
    inner: sha2::Sha256,
}

/// The bytes that a running computation has been fed, in order.
pub uninterp spec fn absorbed(h: Sha256State) -> Seq<u8>;

/// The SHA-256 digest of a message, as `sha2` computes it.
pub uninterp spec fn sha256(message: Seq<u8>) -> Seq<u8>;

/// The number of bytes of a SHA-256 digest.
pub const DIGEST_LEN: usize = 32;

/// One more than the longest message, in bytes, that SHA-256 is defined for:
/// the message length in bits must fit in 64 bits.
pub const MESSAGE_LIMIT: u64 = 0x2000_0000_0000_0000;

/// `sha2::Digest::new` for `Sha256`: a computation that has been fed nothing.
#[verifier::external_body]
fn sha256_start() -> (h: Sha256State)
    ensures
        absorbed(h) == Seq::<u8>::empty(),
{
    Sha256State { inner: <sha2::Sha256 as sha2::Digest>::new() }
}

/// `sha2::Digest::update` for `Sha256`: feeds `chunk` after what was fed
/// before. The crate buffers partial blocks, so feeding in pieces is the same
/// as feeding the concatenation.
#[verifier::external_body]
fn sha256_feed(h: &mut Sha256State, chunk: &[u8])
    requires
        absorbed(*old(h)).len() + chunk@.len() < MESSAGE_LIMIT,
    ensures
        absorbed(*final(h)) == absorbed(*old(h)) + chunk@,
{
    sha2::Digest::update(&mut h.inner, chunk);
}

/// `sha2::Digest::finalize` for `Sha256`: the 32-byte digest of everything
/// that was fed. The crate computes the bit length in 64 bits, which is why
/// the message must stay under `MESSAGE_LIMIT`.
#[verifier::external_body]
fn sha256_finish(h: Sha256State) -> (digest: Vec<u8>)
    requires
        absorbed(h).len() < MESSAGE_LIMIT,
    ensures
        digest@ == sha256(absorbed(h)),
        digest@.len() == DIGEST_LEN,
{
    sha2::Digest::finalize(h.inner).to_vec()
}

/// The character that shows the hexadecimal digit `n`, in lower case.
pub open spec fn hex_digit(n: nat) -> char {
    if n == 0 {
        '0'
    } else if n == 1 {
        '1'
    } else if n == 2 {
        '2'
    } else if n == 3 {
        '3'
    } else if n == 4 {
        '4'
    } else if n == 5 {
        '5'
    } else if n == 6 {
        '6'
    } else if n == 7 {
        '7'
    } else if n == 8 {
        '8'
    } else if n == 9 {
        '9'
    } else if n == 10 {
        'a'
    } else if n == 11 {
        'b'
    } else if n == 12 {
        'c'
    } else if n == 13 {
        'd'
    } else if n == 14 {
        'e'
    } else {
        'f'
    }
}

/// Two lower-case hexadecimal digits for each byte, high digit first.
pub open spec fn hex_lower(bytes: Seq<u8>) -> Seq<char>
    decreases bytes.len(),
{
    if bytes.len() == 0 {
        Seq::empty()
    } else {
        hex_lower(bytes.drop_last()).push(hex_digit(bytes.last() as nat / 16)).push(
            hex_digit(bytes.last() as nat % 16),
        )
    }
}

/// The digest string of a file's content: the SHA-256 digest in lower-case
/// hexadecimal.
pub open spec fn sha256_hex(content: Seq<u8>) -> Seq<char> {
    hex_lower(sha256(content))
}

/// The hexadecimal text of bytes has two characters for each byte.
pub proof fn hex_lower_length(bytes: Seq<u8>)
    ensures
        hex_lower(bytes).len() == 2 * bytes.len(),
    decreases bytes.len(),
{
    if bytes.len() > 0 {
        hex_lower_length(bytes.drop_last());
    }
}

/// The digest string depends on the content alone: the same content gives
/// the same string, whenever and however often it is hashed.
pub proof fn same_content_same_digest(first: Seq<u8>, second: Seq<u8>)
    requires
        first == second,
    ensures
        sha256_hex(first) == sha256_hex(second),
{
}

/// The one-character string of a hexadecimal digit.
fn hex_digit_str(n: u8) -> (s: &'static str)
    requires
        n < 16,
    ensures
        s@ == seq![hex_digit(n as nat)],
{
    proof {
        reveal_strlit("0");
        reveal_strlit("1");
        reveal_strlit("2");
        reveal_strlit("3");
        reveal_strlit("4");
        reveal_strlit("5");
        reveal_strlit("6");
        reveal_strlit("7");
        reveal_strlit("8");
        reveal_strlit("9");
        reveal_strlit("a");
        reveal_strlit("b");
        reveal_strlit("c");
        reveal_strlit("d");
        reveal_strlit("e");
        reveal_strlit("f");
    }
    let s = if n == 0 {
        "0"
    } else if n == 1 {
        "1"
    } else if n == 2 {
        "2"
    } else if n == 3 {
        "3"
    } else if n == 4 {
        "4"
    } else if n == 5 {
        "5"
    } else if n == 6 {
        "6"
    } else if n == 7 {
        "7"
    } else if n == 8 {
        "8"
    } else if n == 9 {
        "9"
    } else if n == 10 {
        "a"
    } else if n == 11 {
        "b"
    } else if n == 12 {
        "c"
    } else if n == 13 {
        "d"
    } else if n == 14 {
        "e"
    } else {
        "f"
    };
    s
}

/// Renders bytes in lower-case hexadecimal.
pub fn to_hex_lower(bytes: &[u8]) -> (s: String)
    ensures
        s@ == hex_lower(bytes@),
{
    let mut s = String::new();
    let mut i: usize = 0;
    while i < bytes.len()
        invariant
            i <= bytes@.len(),
            s@ == hex_lower(bytes@.take(i as int)),
        decreases bytes@.len() - i,
    {
        let b: u8 = bytes[i];
        assert(bytes@.take(i + 1).drop_last() =~= bytes@.take(i as int));
        s.append(hex_digit_str(b / 16));
        s.append(hex_digit_str(b % 16));
        i = i + 1;
    }
    assert(bytes@.take(i as int) =~= bytes@);
    s
}

/// A content digest in progress: feed the content in pieces of any size, then
/// take the digest string.
pub struct ContentHasher {
    state: Sha256State,
    fed: u64,
}

impl View for ContentHasher {
    type V = Seq<u8>;

    /// The content fed so far.
    closed spec fn view(&self) -> Seq<u8> {
        absorbed(self.state)
    }
}

impl ContentHasher {
    /// The hasher's count of the bytes fed is right, and under
    /// `MESSAGE_LIMIT`. Every hasher made by `new` and fed by `update` is
    /// well formed.
    pub closed spec fn wf(&self) -> bool {
        &&& self.fed == absorbed(self.state).len()
        &&& self.fed < MESSAGE_LIMIT
    }

    /// A hasher that has been fed nothing.
    pub fn new() -> (h: Self)
        ensures
            h.wf(),
            h@ == Seq::<u8>::empty(),
    {
        ContentHasher { state: sha256_start(), fed: 0 }
    }

    /// Feeds `chunk` after what was fed before. A chunk that would carry the
    /// content to `MESSAGE_LIMIT` bytes or beyond is refused: nothing is fed
    /// and the answer is `false`.
    pub fn update(&mut self, chunk: &[u8]) -> (taken: bool)
        requires
            old(self).wf(),
        ensures
            final(self).wf(),
            taken == (old(self)@.len() + chunk@.len() < MESSAGE_LIMIT),
            taken ==> final(self)@ == old(self)@ + chunk@,
            !taken ==> final(self)@ == old(self)@,
    {
        let n: u64 = chunk.len() as u64;
        if n >= MESSAGE_LIMIT - self.fed {
            return false;
        }
        sha256_feed(&mut self.state, chunk);
        self.fed = self.fed + n;
        true
    }

    /// Ends the computation and returns the digest string of the content fed.
    pub fn finish(self) -> (hex: String)
        requires
            self.wf(),
        ensures
            hex@ == sha256_hex(self@),
            hex@.len() == 2 * DIGEST_LEN,
    {
        let digest = sha256_finish(self.state);
        proof {
            hex_lower_length(digest@);
        }
        to_hex_lower(digest.as_slice())
    }
}

/// The size of the pieces in which `calc_sha256` feeds its input.
pub const SHA_BUFSIZE: usize = 65536;

/// The digest string of `data`, computed piece by piece; `None` when `data`
/// is too long for SHA-256.
pub fn calc_sha256(data: &[u8]) -> (hex: Option<String>)
    ensures
        data@.len() < MESSAGE_LIMIT ==> (hex matches Some(s) && s@ == sha256_hex(data@) && s@.len()
            == 2 * DIGEST_LEN),
        data@.len() >= MESSAGE_LIMIT ==> hex is None,
{
    let mut hasher = ContentHasher::new();
    let mut at: usize = 0;
    while at < data.len()
        invariant
            at <= data@.len(),
            hasher.wf(),
            hasher@ == data@.take(at as int),
        decreases data@.len() - at,
    {
        let end: usize = if data.len() - at > SHA_BUFSIZE {
            at + SHA_BUFSIZE
        } else {
            data.len()
        };
        let chunk = vstd::slice::slice_subrange(data, at, end);
        let taken = hasher.update(chunk);
        if !taken {
            return None;
        }
        at = end;
    }
    assert(data@.take(at as int) =~= data@);
    Some(hasher.finish())
}

} // verus!

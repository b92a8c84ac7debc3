//! Request signing for the trade API: HMAC-SHA256 over the timestamp, method,
//! path and body, hex encoded.
use vstd::prelude::*;
use vstd::string::StringSliceAdditionalSpecFns;

use hmac::{Hmac, Mac, NewMac};
use sha2::Sha256;

verus! {

/// The HMAC-SHA256 tag of `msg` under `key`.
pub uninterp spec fn hmac_sha256_of(key: Seq<u8>, msg: Seq<u8>) -> Seq<u8>;

/// Relies on hmac's `Hmac<Sha256>` (`new_varkey`, `update`, `finalize`):
/// HMAC takes a key of any length, and the tag is a function of key and
/// message, 32 bytes long.
#[verifier::external_body]
fn hmac_sha256(key: &[u8], msg: &[u8]) -> (r: Vec<u8>)
    ensures
        r@ == hmac_sha256_of(key@, msg@),
        r@.len() == 32,
{
    let mut mac = Hmac::<Sha256>::new_varkey(key).expect("HMAC can take key of any size");
    mac.update(msg);
    mac.finalize().into_bytes().to_vec()
}

/// Lower-case hex digit of a value below 16.
pub open spec fn hex_digit(n: int) -> char {
    seq!['0', '1', '2', '3', '4', '5', '6', '7', '8', '9', 'a', 'b', 'c', 'd', 'e', 'f'][n]
}

/// Two lower-case hex digits per byte, high nibble first.
pub open spec fn hex_text(b: Seq<u8>) -> Seq<char> {
    Seq::new(
        2 * b.len(),
        |i: int|
            if i % 2 == 0 {
                hex_digit(b[i / 2] as int / 16)
            } else {
                hex_digit(b[i / 2] as int % 16)
            },
    )
}

/// Relies on `hex::encode`: each byte becomes two lower-case hex digits, high
/// nibble first.
#[verifier::external_body]
fn hex_encode(b: &[u8]) -> (r: String)
    ensures
        r@ == hex_text(b@),
{
    hex::encode(b)
}

/// ASCII decimal digits of `n`, most significant first.
pub open spec fn decimal_bytes(n: nat) -> Seq<u8>
    decreases n,
{
    let d = (48 + n % 10) as u8;
    if n < 10 {
        seq![d]
    } else {
        decimal_bytes(n / 10).push(d)
    }
}

pub open spec fn pow10(k: nat) -> nat
    decreases k,
{
    if k == 0 {
        1
    } else {
        10 * pow10((k - 1) as nat)
    }
}

proof fn lemma_decimal_len(n: nat, k: nat)
    requires
        1 <= k,
        n < pow10(k),
    ensures
        decimal_bytes(n).len() <= k,
    decreases n,
{
    if n >= 10 {
        if k == 1 {
            assert(pow10(1) == 10 * pow10(0));
        } else {
            let p = pow10((k - 1) as nat);
            assert(n < 10 * p);
            assert(n / 10 < p) by (nonlinear_arith)
                requires
                    n < 10 * p,
            ;
            lemma_decimal_len(n / 10, (k - 1) as nat);
        }
    }
}

proof fn lemma_u32_digits(n: u32)
    ensures
        decimal_bytes(n as nat).len() <= 10,
{
    reveal_with_fuel(pow10, 11);
    assert(pow10(10) == 10000000000);
    lemma_decimal_len(n as nat, 10);
}

/// Digits of `v` in decimal.
fn digits(v: u32) -> (r: Vec<u8>)
    ensures
        r@ == decimal_bytes(v as nat),
{
    let mut out: Vec<u8> = Vec::new();
    let mut m: u32 = v;
    assert(decimal_bytes(v as nat) =~= decimal_bytes(m as nat) + out@);
    while m >= 10
        invariant
            decimal_bytes(v as nat) == decimal_bytes(m as nat) + out@,
        decreases m,
    {
        let d: u8 = (48 + m % 10) as u8;
        let ghost before = out@;
        out.insert(0, d);
        proof {
            let a = decimal_bytes((m / 10) as nat);
            assert(decimal_bytes(m as nat) == a.push(d));
            assert(a.push(d) + before =~= a + out@);
        }
        m = m / 10;
    }
    out.insert(0, (48 + m) as u8);
    proof {
        assert(decimal_bytes(m as nat) =~= seq![(48 + m) as u8]);
    }
    assert(decimal_bytes(v as nat) =~= out@);
    out
}

/// Text of at most `N` bytes, held inline.
#[derive(Clone, Copy)]
pub struct ArrStr<const N: usize> {
    len: usize,
    buf: [u8; N],
}

impl<const N: usize> ArrStr<N> {
    pub closed spec fn view(&self) -> Seq<u8> {
        self.buf@.take(self.len as int)
    }

    pub closed spec fn wf(&self) -> bool {
        self.len <= N
    }

    /// The bytes of the text.
    pub fn as_bytes(&self) -> (r: Vec<u8>)
        requires
            self.wf(),
        ensures
            r@ == self@,
    {
        let mut out: Vec<u8> = Vec::new();
        let mut i: usize = 0;
        while i < self.len
            invariant
                self.wf(),
                i <= self.len,
                out@ == self.buf@.take(i as int),
            decreases self.len - i,
        {
            out.push(self.buf[i]);
            i = i + 1;
            assert(out@ =~= self.buf@.take(i as int));
        }
        out
    }
}

impl ArrStr<10> {
    /// `v` written in decimal; ten bytes hold any `u32`.
    pub fn from_u32(v: u32) -> (r: ArrStr<10>)
        ensures
            r.wf(),
            r@ == decimal_bytes(v as nat),
    {
        let d = digits(v);
        proof {
            lemma_u32_digits(v);
        }
        let n = d.len();
        let mut buf: [u8; 10] = [0u8; 10];
        let mut i: usize = 0;
        while i < n
            invariant
                n == d@.len(),
                n <= 10,
                i <= n,
                forall|j: int| 0 <= j < i ==> buf@[j] == d@[j],
            decreases n - i,
        {
            buf.set(i, d[i]);
            i = i + 1;
        }
        let r = ArrStr { len: n, buf };
        assert(r@ =~= d@);
        r
    }
}

/// The signature of a trade API request: hex of the HMAC-SHA256, under the
/// secret, of the timestamp in decimal followed by the method, the path and
/// the JSON body.
pub fn sign(secret: &str, timestamp: u32, method: &str, url_path: &str, json_payload: &str) -> (r:
    String)
    ensures
        r@ == hex_text(
            hmac_sha256_of(
                secret.spec_bytes(),
                decimal_bytes(timestamp as nat) + method.spec_bytes() + url_path.spec_bytes()
                    + json_payload.spec_bytes(),
            ),
        ),
        r@.len() == 64,
{
    let mut msg = ArrStr::from_u32(timestamp).as_bytes();
    append(&mut msg, method.as_bytes());
    append(&mut msg, url_path.as_bytes());
    append(&mut msg, json_payload.as_bytes());
    let tag = hmac_sha256(secret.as_bytes(), msg.as_slice());
    hex_encode(tag.as_slice())
}

fn append(out: &mut Vec<u8>, b: &[u8])
    ensures
        final(out)@ == old(out)@ + b@,
{
    let mut i: usize = 0;
    while i < b.len()
        invariant
            i <= b@.len(),
            out@ == old(out)@ + b@.take(i as int),
        decreases b@.len() - i,
    {
        out.push(b[i]);
        i = i + 1;
        assert(out@ =~= old(out)@ + b@.take(i as int));
    }
    assert(b@.take(b@.len() as int) =~= b@);
}

/// Credentials of an API account.
pub struct ApiCred {
    pub key: String,
    pub secret: String,
}

/// Signs trade API requests.
pub trait CoinbaseTradeSigner {
    fn sign_data(&self, timestamp: u32, method: &str, url_path: &str, json_payload: &str) -> String;

    fn api_key(&self) -> &str;
}

impl CoinbaseTradeSigner for ApiCred {
    fn sign_data(&self, timestamp: u32, method: &str, url_path: &str, json_payload: &str) -> String {
        sign(self.secret.as_str(), timestamp, method, url_path, json_payload)
    }

    fn api_key(&self) -> &str {
        self.key.as_str()
    }
}

} // verus!

use vstd::prelude::*;
use vstd::string::*;
use sha3::Digest;

verus! {

/// The machine characteristics that a device identifier is derived from.
pub struct DeviceInfo {
    pub hostname: String,
    pub cpu_count: u32,
    pub cpu_clock: u64,
    pub os_type: String,
    pub os_release: String,
}

/// The character of a decimal digit.
pub open spec fn digit_char(d: nat) -> char {
    if d == 0 { '0' }
    else if d == 1 { '1' }
    else if d == 2 { '2' }
    else if d == 3 { '3' }
    else if d == 4 { '4' }
    else if d == 5 { '5' }
    else if d == 6 { '6' }
    else if d == 7 { '7' }
    else if d == 8 { '8' }
    else { '9' }
}

/// A number written in decimal, without leading zeros.
pub open spec fn dec_text(n: nat) -> Seq<char>
    decreases n,
{
    if n < 10 {
        seq![digit_char(n)]
    } else {
        dec_text(n / 10) + seq![digit_char(n % 10)]
    }
}

/// The upper-case hexadecimal digit of a value below 16.
pub open spec fn hex_upper_digit(d: nat) -> char {
    if d < 10 {
        digit_char(d)
    } else if d == 10 { 'A' }
    else if d == 11 { 'B' }
    else if d == 12 { 'C' }
    else if d == 13 { 'D' }
    else if d == 14 { 'E' }
    else { 'F' }
}

/// Bytes in upper-case hexadecimal, two digits each, high half first.
pub open spec fn hex_upper(b: Seq<u8>) -> Seq<char>
    decreases b.len(),
{
    if b.len() == 0 {
        Seq::empty()
    } else {
        seq![hex_upper_digit(b[0] as nat / 16), hex_upper_digit(b[0] as nat % 16)] + hex_upper(
            b.drop_first(),
        )
    }
}

/// The SHA3-256 digest of a text's UTF-8 encoding.
pub uninterp spec fn sha3_256_of(s: Seq<char>) -> Seq<u8>;

/// Relies on sha3's `Sha3_256::digest`: the 32-byte SHA3-256 digest of the
/// text's UTF-8 bytes, a function of the text alone.
#[verifier::external_body]
fn sha3_256(s: &str) -> (r: Vec<u8>)
    ensures
        r@ == sha3_256_of(s@),
        r@.len() == 32,
{
    sha3::Sha3_256::digest(s.as_bytes()).to_vec()
}

/// Relies on data_encoding's `HEXUPPER.encode`: each byte as two upper-case
/// hexadecimal digits, high half first, with no padding or separator.
#[verifier::external_body]
fn hex_upper_encode(b: &[u8]) -> (r: String)
    ensures
        r@ == hex_upper(b@),
{
    data_encoding::HEXUPPER.encode(b)
}

fn digit_str(d: u64) -> (r: &'static str)
    requires
        d < 10,
    ensures
        r@ == seq![digit_char(d as nat)],
{
    proof {
        reveal_strlit("0");
        reveal_strlit("1");
        reveal_strlit("2");
        reveal_strlit("3");
        reveal_strlit("4");
        reveal_strlit("5");
        reveal_strlit("6");
        reveal_strlit("7");
        reveal_strlit("8");
        reveal_strlit("9");
    }
    if d == 0 { "0" }
    else if d == 1 { "1" }
    else if d == 2 { "2" }
    else if d == 3 { "3" }
    else if d == 4 { "4" }
    else if d == 5 { "5" }
    else if d == 6 { "6" }
    else if d == 7 { "7" }
    else if d == 8 { "8" }
    else { "9" }
}

/// Appends the decimal text of `n`.
fn push_decimal(out: &mut String, n: u64)
    ensures
        final(out)@ == old(out)@ + dec_text(n as nat),
    decreases n,
{
    if n >= 10 {
        push_decimal(out, n / 10);
    }
    out.append(digit_str(n % 10));
    assert(final(out)@ =~= old(out)@ + dec_text(n as nat));
}

/// The descriptor of a device at a time: operating system, host name, release,
/// processor count and clock, and the Unix time in seconds.
pub open spec fn feature_text(info: DeviceInfoView, now_secs: u64) -> Seq<char> {
    info.os_type + " "@ + info.hostname + " "@ + info.os_release + " SMP #"@ + dec_text(
        info.cpu_count as nat,
    ) + "@"@ + dec_text(info.cpu_clock as nat) + " TIME "@ + dec_text(now_secs as nat)
}

/// The device identifier derived at a time: the upper-case hexadecimal SHA3-256
/// digest of the descriptor.
pub open spec fn device_id_of(info: DeviceInfoView, now_secs: u64) -> Seq<char> {
    hex_upper(sha3_256_of(feature_text(info, now_secs)))
}

pub ghost struct DeviceInfoView {
    pub hostname: Seq<char>,
    pub cpu_count: u32,
    pub cpu_clock: u64,
    pub os_type: Seq<char>,
    pub os_release: Seq<char>,
}

impl View for DeviceInfo {
    type V = DeviceInfoView;

    open spec fn view(&self) -> DeviceInfoView {
        DeviceInfoView {
            hostname: self.hostname@,
            cpu_count: self.cpu_count,
            cpu_clock: self.cpu_clock,
            os_type: self.os_type@,
            os_release: self.os_release@,
        }
    }
}

proof fn lemma_hex_upper_len(b: Seq<u8>)
    ensures
        hex_upper(b).len() == 2 * b.len(),
    decreases b.len(),
{
    if b.len() > 0 {
        lemma_hex_upper_len(b.drop_first());
    }
}

impl DeviceInfo {
    pub fn new(
        hostname: String,
        cpu_count: u32,
        cpu_clock: u64,
        os_type: String,
        os_release: String,
    ) -> (r: DeviceInfo)
        ensures
            r@ == (DeviceInfoView {
                hostname: hostname@,
                cpu_count,
                cpu_clock,
                os_type: os_type@,
                os_release: os_release@,
            }),
    {
        DeviceInfo { hostname, cpu_count, cpu_clock, os_type, os_release }
    }

    /// The descriptor string of this device at `now_secs`.
    pub fn feature_string(&self, now_secs: u64) -> (r: String)
        ensures
            r@ == feature_text(self@, now_secs),
    {
        let mut s = self.os_type.clone();
        s.append(" ");
        s.append(self.hostname.as_str());
        s.append(" ");
        s.append(self.os_release.as_str());
        s.append(" SMP #");
        push_decimal(&mut s, self.cpu_count as u64);
        s.append("@");
        push_decimal(&mut s, self.cpu_clock);
        s.append(" TIME ");
        push_decimal(&mut s, now_secs);
        s
    }

    /// The device identifier derived at `now_secs` (Unix time, seconds): 64
    /// upper-case hexadecimal digits. The time makes it differ from one
    /// derivation to the next, so it is derived once and then kept.
    pub fn hash(&self, now_secs: u64) -> (r: String)
        ensures
            r@ == device_id_of(self@, now_secs),
            r@.len() == 64,
    {
        let feature_str = self.feature_string(now_secs);
        let digest = sha3_256(feature_str.as_str());
        let r = hex_upper_encode(digest.as_slice());
        proof {
            lemma_hex_upper_len(digest@);
        }
        r
    }
}

} // verus!

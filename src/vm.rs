use vstd::prelude::*;
use vstd::string::*;

verus! {

/// Availability of the remote machine, recomputed on each query.
#[derive(Debug, Clone, PartialEq, PartialOrd)]
pub enum VirtualMachineState {
    Unknown,
    Down,
    Starting,
    Up { ip: String, port: u16 },
}

/// The address fields of a successful status reply, as the gateway sends them.
pub struct VmAddress {
    pub ip: String,
    /// The port, encoded as decimal text.
    pub port: String,
}

/// Why a status reply could not be turned into a state.
#[derive(Debug, Clone, Copy, PartialEq, Eq, Structural)]
pub enum VmStateError {
    /// The reply said the machine is up but carried no address.
    MissingAddress,
    /// The port field is not a decimal number that fits in 16 bits.
    BadPort,
}

pub open spec fn is_digit(c: char) -> bool {
    '0' <= c && c <= '9'
}

pub open spec fn digit_value(c: char) -> int {
    c as int - '0' as int
}

/// The number that a string of decimal digits denotes.
pub open spec fn dec_value(s: Seq<char>) -> int
    decreases s.len(),
{
    if s.len() == 0 {
        0
    } else {
        dec_value(s.drop_last()) * 10 + digit_value(s.last())
    }
}

/// The digits of a number text, after an optional leading `+`.
pub open spec fn unsigned_digits(s: Seq<char>) -> Seq<char> {
    if s.len() > 0 && s[0] == '+' {
        s.drop_first()
    } else {
        s
    }
}

/// A port written in decimal: an optional `+`, then one or more digits whose
/// value is at most 65535.
pub open spec fn port_of(s: Seq<char>) -> Option<u16> {
    let d = unsigned_digits(s);
    if d.len() > 0 && (forall|i: int| 0 <= i < d.len() ==> is_digit(#[trigger] d[i])) && dec_value(d)
        <= 65535 {
        Some(dec_value(d) as u16)
    } else {
        None
    }
}

proof fn lemma_dec_value_nonneg(s: Seq<char>)
    requires
        forall|i: int| 0 <= i < s.len() ==> is_digit(#[trigger] s[i]),
    ensures
        dec_value(s) >= 0,
    decreases s.len(),
{
    if s.len() > 0 {
        lemma_dec_value_nonneg(s.drop_last());
    }
}

/// Reads a port number from its decimal text.
pub fn parse_port(s: &str) -> (r: Option<u16>)
    ensures
        r == port_of(s@),
{
    let n = s.unicode_len();
    let mut start: usize = 0;
    if n > 0 && s.get_char(0) == '+' {
        start = 1;
    }
    let ghost d = unsigned_digits(s@);
    assert(d =~= s@.subrange(start as int, n as int));
    if start == n {
        return None;
    }
    let mut i: usize = start;
    let mut acc: u32 = 0;
    let mut over = false;
    while i < n
        invariant
            start <= i <= n,
            n == s@.len(),
            d =~= s@.subrange(start as int, n as int),
            d == unsigned_digits(s@),
            forall|j: int| start <= j < i ==> is_digit(#[trigger] s@[j]),
            !over ==> acc as int == dec_value(s@.subrange(start as int, i as int)),
            !over ==> acc <= 65535,
            over ==> dec_value(s@.subrange(start as int, i as int)) > 65535,
        decreases n - i,
    {
        let c = s.get_char(i);
        if !('0' <= c && c <= '9') {
            assert(d[i - start] == s@[i as int]);
            assert(!is_digit(d[i - start]));
            return None;
        }
        let ghost prev = s@.subrange(start as int, i as int);
        let ghost next = s@.subrange(start as int, i + 1);
        assert(next.drop_last() =~= prev);
        proof {
            assert forall|j: int| 0 <= j < prev.len() implies is_digit(#[trigger] prev[j]) by {
                assert(prev[j] == s@[start + j]);
            }
            lemma_dec_value_nonneg(prev);
        }
        if !over {
            let v: u32 = acc * 10 + (c as u32 - '0' as u32);
            if v > 65535 {
                over = true;
            } else {
                acc = v;
            }
        }
        i = i + 1;
    }
    if over {
        None
    } else {
        assert(s@.subrange(start as int, n as int) =~= d);
        assert(forall|j: int| 0 <= j < d.len() ==> is_digit(#[trigger] d[j])) by {
            assert forall|j: int| 0 <= j < d.len() implies is_digit(#[trigger] d[j]) by {
                assert(d[j] == s@[start + j]);
            }
        }
        Some(acc as u16)
    }
}

/// The state that a status reply from the gateway stands for.
pub open spec fn is_down_status(status: u16) -> bool {
    status == 429 || status == 470 || status == 471 || status == 472
}

/// Turns the status of a machine-status reply, and for status 200 the address
/// that it carries, into the machine's state.
pub fn vm_state_from_response(status: u16, address: Option<VmAddress>) -> (r: Result<
    VirtualMachineState,
    VmStateError,
>)
    ensures
        status == 200 ==> match address {
            None => r == Err::<VirtualMachineState, VmStateError>(VmStateError::MissingAddress),
            Some(a) => match port_of(a.port@) {
                None => r == Err::<VirtualMachineState, VmStateError>(VmStateError::BadPort),
                Some(p) => r matches Ok(VirtualMachineState::Up { ip, port }) && ip@ == a.ip@
                    && port == p,
            },
        },
        is_down_status(status) ==> r matches Ok(VirtualMachineState::Down),
        status == 473 ==> r matches Ok(VirtualMachineState::Starting),
        status != 200 && !is_down_status(status) && status != 473 ==> r matches Ok(
            VirtualMachineState::Unknown,
        ),
{
    if status == 200 {
        match address {
            None => Err(VmStateError::MissingAddress),
            Some(a) => match parse_port(a.port.as_str()) {
                None => Err(VmStateError::BadPort),
                Some(port) => Ok(VirtualMachineState::Up { ip: a.ip, port }),
            },
        }
    } else if status == 429 || status == 470 || status == 471 || status == 472 {
        Ok(VirtualMachineState::Down)
    } else if status == 473 {
        Ok(VirtualMachineState::Starting)
    } else {
        Ok(VirtualMachineState::Unknown)
    }
}

} // verus!

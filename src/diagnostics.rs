//! Reading stored diagnostic trouble codes.
use vstd::prelude::*;
use crate::error::Error;
use crate::uds::{UdsInterface, UDS_REQ_READDTC};

verus! {

/// A raw two-byte trouble code.
#[derive(Debug, Clone, Copy)]
pub struct Code {
    pub raw: [u8; 2],
}

/// The system letter of a code: P, C, B or U by the top two bits.
pub open spec fn system_letter(b: u8) -> char {
    if b / 64 == 0 {
        'P'
    } else if b / 64 == 1 {
        'C'
    } else if b / 64 == 2 {
        'B'
    } else {
        'U'
    }
}

/// An upper-case hexadecimal digit.
pub open spec fn hex_digit(v: u8) -> char {
    if v < 10 {
        ((v + 48) as u8) as char
    } else {
        ((v + 55) as u8) as char
    }
}

/// The five characters of a code, such as "P0143".
pub open spec fn code_chars(raw: Seq<u8>) -> Seq<char> {
    seq![
        system_letter(raw[0]),
        hex_digit(raw[0] / 16 % 4),
        hex_digit(raw[0] % 16),
        hex_digit(raw[1] / 16),
        hex_digit(raw[1] % 16),
    ]
}

/// The raw codes in a trouble-code response: its first byte is a count, then
/// come two bytes per code; a trailing odd byte is ignored.
pub open spec fn codes_in(response: Seq<u8>) -> Seq<Seq<u8>> {
    Seq::new(
        if response.len() == 0 { 0 } else { ((response.len() - 1) / 2) as nat },
        |k: int| seq![response[1 + 2 * k], response[2 + 2 * k]],
    )
}

fn hex_char(v: u8) -> (r: char)
    requires
        v < 16,
    ensures
        r == hex_digit(v),
{
    if v < 10 {
        (v + 48) as char
    } else {
        (v + 55) as char
    }
}

/// Relies on std's `FromIterator<char> for String`: the string holds exactly these characters.
#[verifier::external_body]
fn string_of_chars(chars: &Vec<char>) -> (r: String)
    ensures
        r@ == chars@,
{
    chars.iter().collect()
}

impl Code {
    /// The five characters of this code.
    pub fn chars(&self) -> (r: Vec<char>)
        ensures
            r@ == code_chars(self.raw@),
    {
        let b0 = self.raw[0];
        let b1 = self.raw[1];
        let letter = if b0 / 64 == 0 {
            'P'
        } else if b0 / 64 == 1 {
            'C'
        } else if b0 / 64 == 2 {
            'B'
        } else {
            'U'
        };
        let mut v = Vec::new();
        v.push(letter);
        v.push(hex_char(b0 / 16 % 4));
        v.push(hex_char(b0 % 16));
        v.push(hex_char(b1 / 16));
        v.push(hex_char(b1 % 16));
        assert(v@ =~= code_chars(self.raw@));
        v
    }

    /// The code as text, such as "P0143" or "U0234".
    pub fn to_code_string(&self) -> (r: String)
        ensures
            r@ == code_chars(self.raw@),
    {
        string_of_chars(&self.chars())
    }
}

/// Splits a trouble-code response into its codes.
pub fn decode_codes(response: &[u8]) -> (r: Vec<Code>)
    ensures
        r@.len() == codes_in(response@).len(),
        forall|k: int| 0 <= k < r@.len() ==> (#[trigger] r@[k]).raw@ == codes_in(response@)[k],
{
    let mut codes: Vec<Code> = Vec::new();
    let mut pos: usize = 1;
    while pos < response.len() && response.len() - pos >= 2
        invariant
            pos == 1 + 2 * codes@.len(),
            pos <= response@.len() || (pos == 1 && response@.len() == 0),
            forall|j: int| 0 <= j < codes@.len() ==> (#[trigger] codes@[j]).raw@ == codes_in(response@)[j],
        decreases response@.len() + 2 - pos,
    {
        let code = Code { raw: [response[pos], response[pos + 1]] };
        assert(code.raw@ =~= codes_in(response@)[codes@.len() as int]);
        codes.push(code);
        pos = pos + 2;
    }
    proof {
        let len = response@.len();
        let c = codes@.len();
        if len > 0 {
            assert(c == (len - 1) / 2) by (nonlinear_arith)
                requires pos == 1 + 2 * c, pos <= len, pos >= len || len - pos < 2, len > 0;
        }
    }
    codes
}

/// Reads trouble codes over UDS.
pub struct UdsScanner<U: UdsInterface> {
    interface: U,
}

impl<U: UdsInterface> UdsScanner<U> {
    pub fn new(interface: U) -> UdsScanner<U> {
        UdsScanner { interface }
    }

    /// Requests the stored trouble codes (service 0x03) and decodes them.
    pub fn scan(&self) -> (r: Result<Vec<Code>, Error>) {
        let empty: [u8; 0] = [];
        match self.interface.request(UDS_REQ_READDTC, &empty) {
            Ok(response) => Ok(decode_codes(response.as_slice())),
            Err(e) => Err(e),
        }
    }
}

} // verus!

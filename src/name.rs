use vstd::prelude::*;
use vstd::string::StringSliceAdditionalSpecFns;

verus! {

/// An ASCII letter or the underscore.
pub open spec fn is_name_start(b: u8) -> bool {
    (65 <= b <= 90) || (97 <= b <= 122) || b == 95
}

/// An ASCII letter, digit or the underscore.
pub open spec fn is_name_byte(b: u8) -> bool {
    is_name_start(b) || (48 <= b <= 57)
}

/// Whether the UTF-8 text `b` is a table name of the form
/// `[A-Za-z_][A-Za-z0-9_]*`. Any other character encodes to bytes outside
/// these ranges, so the test on bytes is the test on characters.
pub open spec fn valid_table_name(b: Seq<u8>) -> bool {
    &&& b.len() > 0
    &&& is_name_start(b[0])
    &&& forall|i: int| 0 <= i < b.len() ==> is_name_byte(#[trigger] b[i])
}

/// Whether `name` may be placed in the text of a statement as a table name.
pub fn is_valid_table_name(name: &str) -> (r: bool)
    ensures
        r == valid_table_name(name.spec_bytes()),
{
    let b = name.as_bytes();
    let n = b.len();
    if n == 0 {
        return false;
    }
    let c0 = b[0];
    if !((65u8 <= c0 && c0 <= 90u8) || (97u8 <= c0 && c0 <= 122u8) || c0 == 95u8) {
        return false;
    }
    let mut i: usize = 0;
    while i < n
        invariant
            b@ == name.spec_bytes(),
            n == b@.len(),
            i <= n,
            forall|j: int| 0 <= j < i ==> is_name_byte(#[trigger] b@[j]),
        decreases n - i,
    {
        let c = b[i];
        if !((65u8 <= c && c <= 90u8) || (97u8 <= c && c <= 122u8) || c == 95u8 || (48u8 <= c
            && c <= 57u8)) {
            assert(!is_name_byte(b@[i as int]));
            return false;
        }
        i = i + 1;
    }
    true
}

} // verus!

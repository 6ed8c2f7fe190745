//! Text forms used as store keys: the hyphenated lower-case hex form of a
//! 128-bit UUID value, which keys a session record, and the
//! `verify/{user_id}/{email}` form, which keys an email-verification record.

use vstd::prelude::*;
use vstd::string::StringExecFns;

verus! {

/// Relies on `String::push`: appends the character to the end of the string.
#[verifier::external_body]
pub(crate) fn push_char(s: &mut String, c: char)
    ensures
        final(s)@ == old(s)@.push(c),
{
    s.push(c);
}

/// The lower-case hex digit for a value below sixteen.
pub open spec fn hex_digit(n: int) -> char {
    if n == 0 { '0' }
    else if n == 1 { '1' }
    else if n == 2 { '2' }
    else if n == 3 { '3' }
    else if n == 4 { '4' }
    else if n == 5 { '5' }
    else if n == 6 { '6' }
    else if n == 7 { '7' }
    else if n == 8 { '8' }
    else if n == 9 { '9' }
    else if n == 10 { 'a' }
    else if n == 11 { 'b' }
    else if n == 12 { 'c' }
    else if n == 13 { 'd' }
    else if n == 14 { 'e' }
    else { 'f' }
}

fn hex_digit_char(n: u8) -> (c: char)
    requires
        n < 16,
    ensures
        c == hex_digit(n as int),
{
    if n == 0 { '0' }
    else if n == 1 { '1' }
    else if n == 2 { '2' }
    else if n == 3 { '3' }
    else if n == 4 { '4' }
    else if n == 5 { '5' }
    else if n == 6 { '6' }
    else if n == 7 { '7' }
    else if n == 8 { '8' }
    else if n == 9 { '9' }
    else if n == 10 { 'a' }
    else if n == 11 { 'b' }
    else if n == 12 { 'c' }
    else if n == 13 { 'd' }
    else if n == 14 { 'e' }
    else { 'f' }
}

/// The `i`-th hex digit of `u`, counting from the most significant nibble.
pub open spec fn nibble(u: u128, i: int) -> u128
    recommends
        0 <= i < 32,
{
    (u >> (((31 - i) * 4) as u128)) & 0xf
}

/// Position of the hex digit that stands at position `j` of the hyphenated
/// form, skipping the hyphens at positions 8, 13, 18 and 23.
pub open spec fn uuid_digit_index(j: int) -> int {
    if j < 8 { j }
    else if j < 13 { j - 1 }
    else if j < 18 { j - 2 }
    else if j < 23 { j - 3 }
    else { j - 4 }
}

/// The character at position `j` of the hyphenated form of `u`.
pub open spec fn uuid_char(u: u128, j: int) -> char {
    if j == 8 || j == 13 || j == 18 || j == 23 { '-' }
    else { hex_digit(nibble(u, uuid_digit_index(j)) as int) }
}

/// The hyphenated lower-case hex form of a 128-bit UUID value: 32 hex digits
/// in groups of 8-4-4-4-12, most significant first.
pub open spec fn uuid_str(u: u128) -> Seq<char> {
    Seq::new(36, |j: int| uuid_char(u, j))
}

proof fn lemma_low_nibble_bound(x: u128)
    ensures
        x & 0xf < 16,
{
    assert(x & 0xf < 16) by (bit_vector);
}

/// Format a 128-bit UUID value in its canonical hyphenated text form — the
/// string form used as the store key of a session record.
pub fn uuid_string(u: u128) -> (r: String)
    ensures
        r@ == uuid_str(u),
{
    let mut out = String::new();
    let mut j: usize = 0;
    while j < 36
        invariant
            j <= 36,
            out@ =~= Seq::new(j as nat, |i: int| uuid_char(u, i)),
        decreases 36 - j,
    {
        if j == 8 || j == 13 || j == 18 || j == 23 {
            push_char(&mut out, '-');
            assert(uuid_char(u, j as int) == '-');
        } else {
            let d: u128 = if j < 8 { j as u128 }
                else if j < 13 { (j - 1) as u128 }
                else if j < 18 { (j - 2) as u128 }
                else if j < 23 { (j - 3) as u128 }
                else { (j - 4) as u128 };
            assert(d == uuid_digit_index(j as int));
            let sh: u128 = (31 - d) * 4;
            let nib: u128 = (u >> sh) & 0xf;
            proof {
                lemma_low_nibble_bound(u >> sh);
                assert(sh == ((31 - uuid_digit_index(j as int)) * 4) as u128);
                assert(nib == nibble(u, uuid_digit_index(j as int)));
            }
            push_char(&mut out, hex_digit_char(nib as u8));
            assert(uuid_char(u, j as int) == hex_digit(nib as int));
        }
        j += 1;
        assert(out@ =~= Seq::new(j as nat, |i: int| uuid_char(u, i)));
    }
    assert(out@ =~= uuid_str(u));
    out
}

/// The store key under which the pending verification code of a
/// (user, email) pair is recorded: `verify/{user_id}/{email}`.
pub open spec fn verification_key(user_id: u128, email: Seq<char>) -> Seq<char> {
    "verify/"@ + uuid_str(user_id) + "/"@ + email
}

/// Build the store key of the verification record of a (user, email) pair.
pub fn make_verification_key(user_id: u128, email: &str) -> (r: String)
    ensures
        r@ == verification_key(user_id, email@),
{
    let mut out = String::from_str("verify/");
    let id_text = uuid_string(user_id);
    out.append(id_text.as_str());
    out.append("/");
    out.append(email);
    proof {
        assert(out@ =~= verification_key(user_id, email@));
    }
    out
}

/// A session record's key is never a verification record's key: the first
/// begins with a hex digit, the second with the letter `v`.
pub proof fn lemma_store_keys_disjoint(session_id: u128, user_id: u128, email: Seq<char>)
    ensures
        uuid_str(session_id) != verification_key(user_id, email),
{
    reveal_strlit("verify/");
    let s = uuid_str(session_id);
    let v = verification_key(user_id, email);
    assert(v[0] == 'v');
    assert(s[0] == hex_digit(nibble(session_id, 0) as int));
    lemma_low_nibble_bound(session_id >> 124);
    assert(s[0] != 'v');
}

} // verus!

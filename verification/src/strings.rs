//! Small verified helpers over `String`: appending single characters,
//! joining words with spaces, decoding UTF-8 payloads, and comparing string
//! slices by content.

use vstd::prelude::*;
use vstd::string::StringExecFns;

verus! {

/// Relies on `String::push`: appends exactly the given character.
#[verifier::external_body]
pub fn push_char(s: &mut String, c: char)
    ensures
        final(s)@ == old(s)@.push(c),
{
    s.push(c);
}

/// Relies on `String::from_utf8`: succeeds exactly on valid UTF-8 input and
/// yields its decoding, as modelled by vstd's UTF-8 functions.
#[verifier::external_body]
pub fn bytes_to_string(bytes: Vec<u8>) -> (r: Option<String>)
    ensures
        r is Some <==> vstd::utf8::valid_utf8(bytes@),
        r matches Some(s) ==> s@ == vstd::utf8::decode_utf8(bytes@),
{
    match String::from_utf8(bytes) {
        Ok(s) => Some(s),
        Err(_) => None,
    }
}

/// Whether two string slices hold the same characters.
pub fn str_eq(a: &str, b: &str) -> (r: bool)
    ensures
        r == (a@ == b@),
{
    let sa = a.to_owned();
    let sb = b.to_owned();
    sa == sb
}

/// The strings of `parts`, from index `from` on, joined with single spaces.
pub open spec fn spec_joined(parts: Seq<Seq<char>>, from: int) -> Seq<char>
    decreases parts.len() - from,
{
    if from < 0 || from >= parts.len() {
        Seq::empty()
    } else if from == parts.len() - 1 {
        parts[from]
    } else {
        parts[from] + seq![' '] + spec_joined(parts, from + 1)
    }
}

pub fn join_from(parts: &Vec<String>, from: usize) -> (r: String)
    ensures
        r@ == spec_joined(parts@.map_values(|p: String| p@), from as int),
{
    let ghost model = parts@.map_values(|p: String| p@);
    if from >= parts.len() {
        return String::new();
    }
    let mut r = parts[from].clone();
    proof {
        reveal_strlit(" ");
        assert(model[from as int] == r@);
        if from + 1 < parts@.len() {
            assert(spec_joined(model, from as int) =~= r@ + (seq![' '] + spec_joined(
                model,
                from as int + 1,
            )));
        } else {
            assert(spec_joined(model, from as int) =~= r@ + Seq::<char>::empty());
        }
    }
    let mut i: usize = from + 1;
    while i < parts.len()
        invariant
            from < i <= parts@.len(),
            model == parts@.map_values(|p: String| p@),
            spec_joined(model, from as int) == r@ + if i < parts@.len() {
                seq![' '] + spec_joined(model, i as int)
            } else {
                Seq::<char>::empty()
            },
        decreases parts@.len() - i,
    {
        let ghost r_old = r@;
        r.append(" ");
        r.append(parts[i].as_str());
        proof {
            reveal_strlit(" ");
            assert(" "@ =~= seq![' ']);
            assert(r@ =~= r_old + seq![' '] + model[i as int]);
            if i + 1 < parts@.len() {
                assert(spec_joined(model, i as int) == model[i as int] + seq![' '] + spec_joined(
                    model,
                    i as int + 1,
                ));
                assert(r_old + (seq![' '] + spec_joined(model, i as int)) =~= r@ + (seq![' ']
                    + spec_joined(model, i as int + 1)));
            } else {
                assert(spec_joined(model, i as int) == model[i as int]);
                assert(r_old + (seq![' '] + spec_joined(model, i as int)) =~= r@
                    + Seq::<char>::empty());
            }
        }
        i += 1;
    }
    r
}

} // verus!

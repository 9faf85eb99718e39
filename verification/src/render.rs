//! Textual rendering of the derived parameters into generated circuit
//! source: decimal literals, explicit lists, one commented line per
//! parameter, and the parameterized main-component declaration.

use vstd::prelude::*;
use vstd::string::StringExecFns;
use crate::params::Param;
use crate::params::ParamValue;
use crate::params::ParameterSet;

verus! {

/// The single character naming a decimal digit.
pub open spec fn digit_seq(v: int) -> Seq<char> {
    if v == 0 {
        "0"@
    } else if v == 1 {
        "1"@
    } else if v == 2 {
        "2"@
    } else if v == 3 {
        "3"@
    } else if v == 4 {
        "4"@
    } else if v == 5 {
        "5"@
    } else if v == 6 {
        "6"@
    } else if v == 7 {
        "7"@
    } else if v == 8 {
        "8"@
    } else {
        "9"@
    }
}

/// Decimal rendering of a non-negative integer, most significant digit
/// first, with no leading zeros.
pub open spec fn dec_spec(v: nat) -> Seq<char>
    decreases v,
{
    if v < 10 {
        digit_seq(v as int)
    } else {
        dec_spec(v / 10) + digit_seq((v % 10) as int)
    }
}

/// Rendering of a list value: the elements in brackets, separated by a
/// comma and a space.
pub open spec fn list_tail_spec(s: Seq<u64>) -> Seq<char>
    decreases s.len(),
{
    if s.len() == 0 {
        Seq::empty()
    } else {
        ", "@ + dec_spec(s[0] as nat) + list_tail_spec(s.drop_first())
    }
}

pub open spec fn list_spec(s: Seq<u64>) -> Seq<char> {
    if s.len() == 0 {
        "[]"@
    } else {
        "["@ + dec_spec(s[0] as nat) + list_tail_spec(s.drop_first()) + "]"@
    }
}

/// Rendering of one parameter value.
pub open spec fn value_spec(v: ParamValue) -> Seq<char> {
    match v {
        ParamValue::Scalar(x) => dec_spec(x as nat),
        ParamValue::List(l) => list_spec(l@),
    }
}

/// The argument block of the main-component declaration: one line per
/// parameter — its value, then an inline comment naming it — with every
/// line but the last ending in a comma and the four-space continuation
/// indent.
pub open spec fn args_spec(s: Seq<Param>) -> Seq<char>
    decreases s.len(),
{
    if s.len() == 0 {
        Seq::empty()
    } else if s.len() == 1 {
        value_spec(s[0].value) + " // "@ + s[0].name@ + "\n"@
    } else {
        value_spec(s[0].value) + ", // "@ + s[0].name@ + "\n    "@ + args_spec(s.drop_first())
    }
}

/// The parameterized main-component declaration, exposing the two public
/// signal arrays the verification circuit publishes.
pub open spec fn main_spec(s: Seq<Param>) -> Seq<char> {
    "component main {public [ood_frame_constraint_evaluation, ood_trace_frame]} = Verify(\n    "@
        + args_spec(s) + ");\n"@
}

fn digit_str(v: u128) -> (s: &'static str)
    requires
        v < 10,
    ensures
        s@ == digit_seq(v as int),
{
    if v == 0 {
        "0"
    } else if v == 1 {
        "1"
    } else if v == 2 {
        "2"
    } else if v == 3 {
        "3"
    } else if v == 4 {
        "4"
    } else if v == 5 {
        "5"
    } else if v == 6 {
        "6"
    } else if v == 7 {
        "7"
    } else if v == 8 {
        "8"
    } else {
        "9"
    }
}

/// Append the decimal rendering of `v`.
fn push_dec(out: &mut String, v: u128)
    ensures
        final(out)@ == old(out)@ + dec_spec(v as nat),
    decreases v,
{
    if v < 10 {
        out.append(digit_str(v));
    } else {
        push_dec(out, v / 10);
        out.append(digit_str(v % 10));
        proof {
            assert(final(out)@ =~= old(out)@ + dec_spec(v as nat));
        }
    }
}

fn push_list_tail(out: &mut String, items: &Vec<u64>, i: usize)
    requires
        1 <= i <= items@.len(),
    ensures
        final(out)@ == old(out)@ + list_tail_spec(items@.skip(i as int)),
    decreases items@.len() - i,
{
    if i < items.len() {
        out.append(", ");
        push_dec(out, items[i] as u128);
        push_list_tail(out, items, i + 1);
        proof {
            assert(items@.skip(i as int).drop_first() =~= items@.skip(i + 1));
            assert(items@.skip(i as int)[0] == items@[i as int]);
            assert(final(out)@ =~= old(out)@ + list_tail_spec(items@.skip(i as int)));
        }
    } else {
        proof {
            assert(items@.skip(i as int).len() == 0);
        }
    }
}

/// Append the bracketed rendering of a list value.
fn push_list(out: &mut String, items: &Vec<u64>)
    ensures
        final(out)@ == old(out)@ + list_spec(items@),
{
    if items.len() == 0 {
        out.append("[]");
    } else {
        out.append("[");
        push_dec(out, items[0] as u128);
        push_list_tail(out, items, 1);
        out.append("]");
        proof {
            assert(items@.skip(1) =~= items@.drop_first());
            assert(final(out)@ =~= old(out)@ + list_spec(items@));
        }
    }
}

/// Append the rendering of one parameter value.
fn push_value(out: &mut String, v: &ParamValue)
    ensures
        final(out)@ == old(out)@ + value_spec(*v),
{
    match v {
        ParamValue::Scalar(x) => push_dec(out, *x),
        ParamValue::List(l) => push_list(out, l),
    }
}

fn push_args(out: &mut String, entries: &Vec<Param>, i: usize)
    requires
        i <= entries@.len(),
    ensures
        final(out)@ == old(out)@ + args_spec(entries@.skip(i as int)),
    decreases entries@.len() - i,
{
    if i < entries.len() {
        proof {
            let tail = entries@.skip(i as int);
            assert(tail[0] == entries@[i as int]);
            assert(tail.drop_first() =~= entries@.skip(i + 1));
        }
        push_value(out, &entries[i].value);
        if i + 1 == entries.len() {
            out.append(" // ");
            out.append(entries[i].name);
            out.append("\n");
            proof {
                assert(final(out)@ =~= old(out)@ + args_spec(entries@.skip(i as int)));
            }
        } else {
            out.append(", // ");
            out.append(entries[i].name);
            out.append("\n    ");
            push_args(out, entries, i + 1);
            proof {
                assert(final(out)@ =~= old(out)@ + args_spec(entries@.skip(i as int)));
            }
        }
    } else {
        proof {
            assert(entries@.skip(i as int).len() == 0);
        }
    }
}

/// Render the main-component declaration of the generated circuit source:
/// the `Verify` instantiation applied to the derived parameters, in their
/// fixed order, one commented line each.
pub fn generate_circom_main(params: &ParameterSet) -> (r: String)
    ensures
        r@ == main_spec(params.entries@),
{
    let mut out = String::new();
    out.append(
        "component main {public [ood_frame_constraint_evaluation, ood_trace_frame]} = Verify(\n    ",
    );
    push_args(&mut out, &params.entries, 0);
    out.append(");\n");
    proof {
        assert(params.entries@.skip(0) =~= params.entries@);
        assert(out@ =~= main_spec(params.entries@));
    }
    out
}

/// The two source files the generated circuit pulls in, in order: the
/// generic verification circuit, then the per-circuit constraint system
/// named after the circuit.
pub fn circuit_import_paths(circuit_name: &str) -> (r: Vec<String>)
    ensures
        r@.len() == 2,
        r@[0]@ == "../../../circuits/verify.circom"@,
        r@[1]@ == "../../../circuits/air/"@ + circuit_name@ + ".circom"@,
{
    let mut air_path = String::new();
    air_path.append("../../../circuits/air/");
    air_path.append(circuit_name);
    air_path.append(".circom");
    let mut r: Vec<String> = Vec::new();
    r.push(String::from_str("../../../circuits/verify.circom"));
    r.push(air_path);
    r
}

} // verus!

//! The ABI parameter-type grammar: parsing raw textual types and mapping them
//! to their ink!-side Rust spellings.

use vstd::prelude::*;
use vstd::string::StringExecFns;
use vstd::string::StrSliceExecFns;

verus! {

/// One ABI value type. The grammar is closed: these variants are all there is.
#[derive(Debug, PartialEq, Eq)]
pub enum ParamType {
    Bool,
    Address,
    Bytes,
    Str,
    Int(u16),
    Uint(u16),
    FixedBytes(usize),
    Array(Box<ParamType>),
    FixedArray(Box<ParamType>, usize),
    Tuple(Box<ParamTypeList>),
}

/// An ordered sequence of ABI types, as held by a tuple type.
#[derive(Debug, PartialEq, Eq)]
pub enum ParamTypeList {
    Nil,
    Cons(ParamType, Box<ParamTypeList>),
}

/// The integer widths the grammar admits; any other width is malformed.
pub open spec fn is_supported_width(w: u16) -> bool {
    w == 8 || w == 16 || w == 32 || w == 64 || w == 128 || w == 256
}

/// The decimal digit character for d (d < 10).
pub open spec fn dec_digit(d: nat) -> char {
    if d == 0 { '0' }
    else if d == 1 { '1' }
    else if d == 2 { '2' }
    else if d == 3 { '3' }
    else if d == 4 { '4' }
    else if d == 5 { '5' }
    else if d == 6 { '6' }
    else if d == 7 { '7' }
    else if d == 8 { '8' }
    else { '9' }
}

/// The usual decimal rendering of n, most significant digit first, no sign,
/// no leading zeros (except for n == 0 itself).
pub open spec fn dec_str(n: nat) -> Seq<char>
    decreases n,
{
    if n < 10 { seq![dec_digit(n)] } else { dec_str(n / 10) + seq![dec_digit(n % 10)] }
}

/// The target-language spelling of one ABI type, applied recursively.
pub open spec fn map_type_spec(t: ParamType) -> Seq<char>
    decreases t,
{
    match t {
        ParamType::Bool => "bool"@,
        ParamType::Address => "H160"@,
        ParamType::Bytes => "Vec<u8>"@,
        ParamType::Str => "String"@,
        ParamType::Int(w) => {
            if w == 8 { "i8"@ }
            else if w == 16 { "i16"@ }
            else if w == 32 { "i32"@ }
            else if w == 64 { "i64"@ }
            else if w == 128 { "i128"@ }
            else { "I256"@ }
        },
        ParamType::Uint(w) => {
            if w == 8 { "u8"@ }
            else if w == 16 { "u16"@ }
            else if w == 32 { "u32"@ }
            else if w == 64 { "u64"@ }
            else if w == 128 { "u128"@ }
            else { "U256"@ }
        },
        ParamType::FixedBytes(n) => "FixedBytes<"@ + dec_str(n as nat) + ">"@,
        ParamType::Array(inner) => "Vec<"@ + map_type_spec(*inner) + ">"@,
        ParamType::FixedArray(inner, n) => "["@ + map_type_spec(*inner) + "; "@ + dec_str(
            n as nat,
        ) + "]"@,
        ParamType::Tuple(ts) => "("@ + map_types_joined(*ts) + ")"@,
    }
}

/// The spellings of a tuple's element types, joined with ", ".
pub open spec fn map_types_joined(ts: ParamTypeList) -> Seq<char>
    decreases ts,
{
    match ts {
        ParamTypeList::Nil => Seq::<char>::empty(),
        ParamTypeList::Cons(head, tail) => match *tail {
            ParamTypeList::Nil => map_type_spec(head),
            _ => map_type_spec(head) + ", "@ + map_types_joined(*tail),
        },
    }
}

fn digit_str(d: usize) -> (r: &'static str)
    requires
        d < 10,
    ensures
        r@ == seq![dec_digit(d as nat)],
{
    proof {
        reveal_strlit("0");
        reveal_strlit("1");
        reveal_strlit("2");
        reveal_strlit("3");
        reveal_strlit("4");
        reveal_strlit("5");
        reveal_strlit("6");
        reveal_strlit("7");
        reveal_strlit("8");
        reveal_strlit("9");
    }
    match d {
        0 => "0",
        1 => "1",
        2 => "2",
        3 => "3",
        4 => "4",
        5 => "5",
        6 => "6",
        7 => "7",
        8 => "8",
        _ => "9",
    }
}

/// Renders n in decimal.
pub fn usize_to_string(n: usize) -> (r: String)
    ensures
        r@ == dec_str(n as nat),
    decreases n,
{
    if n < 10 {
        let mut s = String::new();
        s.append(digit_str(n));
        s
    } else {
        let mut s = usize_to_string(n / 10);
        s.append(digit_str(n % 10));
        s
    }
}

/// Maps one ABI type to its target-language spelling. Total: every variant,
/// at every nesting depth, has a defined image.
pub fn map_type(t: &ParamType) -> (r: String)
    ensures
        r@ == map_type_spec(*t),
    decreases *t,
{
    match t {
        ParamType::Bool => String::from_str("bool"),
        ParamType::Address => String::from_str("H160"),
        ParamType::Bytes => String::from_str("Vec<u8>"),
        ParamType::Str => String::from_str("String"),
        ParamType::Int(w) => {
            if *w == 8 { String::from_str("i8") }
            else if *w == 16 { String::from_str("i16") }
            else if *w == 32 { String::from_str("i32") }
            else if *w == 64 { String::from_str("i64") }
            else if *w == 128 { String::from_str("i128") }
            else { String::from_str("I256") }
        },
        ParamType::Uint(w) => {
            if *w == 8 { String::from_str("u8") }
            else if *w == 16 { String::from_str("u16") }
            else if *w == 32 { String::from_str("u32") }
            else if *w == 64 { String::from_str("u64") }
            else if *w == 128 { String::from_str("u128") }
            else { String::from_str("U256") }
        },
        ParamType::FixedBytes(n) => {
            let mut s = String::from_str("FixedBytes<");
            let num = usize_to_string(*n);
            s.append(num.as_str());
            s.append(">");
            s
        },
        ParamType::Array(inner) => {
            let mut s = String::from_str("Vec<");
            let m = map_type(inner);
            s.append(m.as_str());
            s.append(">");
            s
        },
        ParamType::FixedArray(inner, n) => {
            let mut s = String::from_str("[");
            let m = map_type(inner);
            s.append(m.as_str());
            s.append("; ");
            let num = usize_to_string(*n);
            s.append(num.as_str());
            s.append("]");
            s
        },
        ParamType::Tuple(ts) => {
            let mut s = String::from_str("(");
            let m = map_type_list(ts);
            s.append(m.as_str());
            s.append(")");
            s
        },
    }
}

/// Maps each element type of a tuple, joined with ", ".
pub fn map_type_list(ts: &ParamTypeList) -> (r: String)
    ensures
        r@ == map_types_joined(*ts),
    decreases *ts,
{
    match ts {
        ParamTypeList::Nil => String::new(),
        ParamTypeList::Cons(head, tail) => {
            let mut s = map_type(head);
            match &**tail {
                ParamTypeList::Nil => s,
                _ => {
                    s.append(", ");
                    let rest = map_type_list(tail);
                    s.append(rest.as_str());
                    s
                },
            }
        },
    }
}

/// True of a decimal digit character.
pub open spec fn is_digit(c: char) -> bool {
    '0' as int <= c as int <= '9' as int
}

/// The numeric value of a digit character.
pub open spec fn digit_val(c: char) -> nat {
    (c as int - '0' as int) as nat
}

/// True when s is a non-empty run of decimal digits.
pub open spec fn all_digits(s: Seq<char>) -> bool {
    s.len() > 0 && forall|i: int| 0 <= i < s.len() ==> is_digit(#[trigger] s[i])
}

/// The numeric value of a digit run, most significant digit first.
pub open spec fn digits_val(s: Seq<char>) -> nat
    decreases s.len(),
{
    if s.len() == 0 {
        0
    } else {
        digits_val(s.drop_last()) * 10 + digit_val(s.last())
    }
}

/// The position of the last '[' in s, if any.
pub open spec fn rfind_lbracket(s: Seq<char>) -> Option<int>
    decreases s.len(),
{
    if s.len() == 0 {
        None
    } else if s.last() == '[' {
        Some(s.len() - 1)
    } else {
        rfind_lbracket(s.drop_last())
    }
}

/// The position of the first comma of s at bracket depth 0, scanning from i
/// with the given starting depth.
pub open spec fn top_comma_from(s: Seq<char>, i: int, depth: int) -> Option<int>
    decreases s.len() - i,
{
    if i < 0 || i >= s.len() {
        None
    } else if s[i] == ',' && depth == 0 {
        Some(i)
    } else {
        let d = if s[i] == '(' || s[i] == '[' {
            depth + 1
        } else if s[i] == ')' || s[i] == ']' {
            depth - 1
        } else {
            depth
        };
        top_comma_from(s, i + 1, d)
    }
}

/// The integer width named by a type suffix; only the six supported widths
/// belong to the grammar.
pub open spec fn width_of(s: Seq<char>) -> Option<u16> {
    if s == "8"@ { Some(8u16) }
    else if s == "16"@ { Some(16u16) }
    else if s == "32"@ { Some(32u16) }
    else if s == "64"@ { Some(64u16) }
    else if s == "128"@ { Some(128u16) }
    else if s == "256"@ { Some(256u16) }
    else { None }
}

/// The base (non-array, non-parenthesized) type grammar. Bare "int"/"uint"
/// mean the 256-bit widths; "tuple" is the empty tuple, as the interface
/// description spells a structured type whose components are listed apart.
pub open spec fn parse_base_spec(s: Seq<char>) -> Option<ParamType> {
    if s == "bool"@ { Some(ParamType::Bool) }
    else if s == "address"@ { Some(ParamType::Address) }
    else if s == "bytes"@ { Some(ParamType::Bytes) }
    else if s == "string"@ { Some(ParamType::Str) }
    else if s == "int"@ { Some(ParamType::Int(256)) }
    else if s == "uint"@ { Some(ParamType::Uint(256)) }
    else if s == "tuple"@ { Some(ParamType::Tuple(Box::new(ParamTypeList::Nil))) }
    else if s.len() > 4 && s.subrange(0, 4) == "uint"@ {
        match width_of(s.subrange(4, s.len() as int)) {
            Some(w) => Some(ParamType::Uint(w)),
            None => None,
        }
    } else if s.len() > 3 && s.subrange(0, 3) == "int"@ {
        match width_of(s.subrange(3, s.len() as int)) {
            Some(w) => Some(ParamType::Int(w)),
            None => None,
        }
    } else if s.len() > 5 && s.subrange(0, 5) == "bytes"@ && all_digits(
        s.subrange(5, s.len() as int),
    ) && digits_val(s.subrange(5, s.len() as int)) <= usize::MAX as nat {
        Some(ParamType::FixedBytes(digits_val(s.subrange(5, s.len() as int)) as usize))
    } else {
        None
    }
}

/// The full type grammar. A trailing "[...]" group is an array layer over the
/// prefix; a parenthesized, comma-separated list is a tuple; anything else
/// must be a base type. Everything outside this grammar is malformed.
pub open spec fn parse_type_spec(s: Seq<char>) -> Option<ParamType>
    decreases s.len(), 1int,
{
    if s.len() == 0 {
        None
    } else if s.last() == ']' {
        match rfind_lbracket(s) {
            None => None,
            Some(j) => {
                if !(0 <= j < s.len() - 1) {
                    None
                } else {
                    let rest = s.subrange(0, j);
                    let mid = s.subrange(j + 1, s.len() - 1);
                    if rest.len() == 0 {
                        None
                    } else if mid.len() == 0 {
                        match parse_type_spec(rest) {
                            Some(t) => Some(ParamType::Array(Box::new(t))),
                            None => None,
                        }
                    } else if all_digits(mid) && digits_val(mid) <= usize::MAX as nat {
                        match parse_type_spec(rest) {
                            Some(t) => Some(
                                ParamType::FixedArray(Box::new(t), digits_val(mid) as usize),
                            ),
                            None => None,
                        }
                    } else {
                        None
                    }
                }
            },
        }
    } else if s.len() >= 2 && s[0] == '(' && s.last() == ')' {
        let inner = s.subrange(1, s.len() - 1);
        if inner.len() == 0 {
            Some(ParamType::Tuple(Box::new(ParamTypeList::Nil)))
        } else {
            match parse_list_spec(inner) {
                Some(l) => Some(ParamType::Tuple(Box::new(l))),
                None => None,
            }
        }
    } else {
        parse_base_spec(s)
    }
}

/// A non-empty comma-separated list of types, commas taken at bracket depth 0.
pub open spec fn parse_list_spec(s: Seq<char>) -> Option<ParamTypeList>
    decreases s.len(), 2int,
{
    match top_comma_from(s, 0, 0) {
        None => match parse_type_spec(s) {
            Some(t) => Some(ParamTypeList::Cons(t, Box::new(ParamTypeList::Nil))),
            None => None,
        },
        Some(i) => {
            if 0 <= i < s.len() {
                match (parse_type_spec(s.subrange(0, i)), parse_list_spec(
                    s.subrange(i + 1, s.len() as int),
                )) {
                    (Some(t), Some(l)) => Some(ParamTypeList::Cons(t, Box::new(l))),
                    _ => None,
                }
            } else {
                None
            }
        },
    }
}

proof fn lemma_rfind_props(s: Seq<char>)
    ensures
        match rfind_lbracket(s) {
            Some(j) => 0 <= j < s.len() && s[j] == '[' && forall|k: int|
                j < k < s.len() ==> s[k] != '[',
            None => forall|k: int| 0 <= k < s.len() ==> s[k] != '[',
        },
    decreases s.len(),
{
    if s.len() > 0 && s.last() != '[' {
        lemma_rfind_props(s.drop_last());
        assert forall|k: int| 0 <= k < s.len() - 1 implies s.drop_last()[k] == s[k] by {}
    }
}

proof fn lemma_digits_val_prefix_le(s: Seq<char>, i: int)
    requires
        0 <= i <= s.len(),
    ensures
        digits_val(s.subrange(0, i)) <= digits_val(s),
    decreases s.len() - i,
{
    if i < s.len() {
        lemma_digits_val_prefix_le(s, i + 1);
        let a = s.subrange(0, i);
        let b = s.subrange(0, i + 1);
        assert(b.drop_last() =~= a);
        assert(digits_val(b) == digits_val(a) * 10 + digit_val(b.last()));
    } else {
        assert(s.subrange(0, i) =~= s);
    }
}

fn copy_range(v: &Vec<char>, lo: usize, hi: usize) -> (r: Vec<char>)
    requires
        lo <= hi <= v@.len(),
    ensures
        r@ == v@.subrange(lo as int, hi as int),
{
    let mut r: Vec<char> = Vec::new();
    let mut i: usize = lo;
    while i < hi
        invariant
            lo <= i <= hi <= v@.len(),
            r@ == v@.subrange(lo as int, i as int),
        decreases hi - i,
    {
        r.push(v[i]);
        proof {
            assert(v@.subrange(lo as int, i as int).push(v@[i as int]) =~= v@.subrange(
                lo as int,
                i as int + 1,
            ));
        }
        i = i + 1;
    }
    r
}

fn range_eq_str(v: &Vec<char>, lo: usize, hi: usize, s: &str) -> (r: bool)
    requires
        lo <= hi <= v@.len(),
    ensures
        r == (v@.subrange(lo as int, hi as int) == s@),
{
    let n = s.unicode_len();
    if n != hi - lo {
        proof {
            assert(v@.subrange(lo as int, hi as int).len() == hi - lo);
        }
        return false;
    }
    let mut i: usize = 0;
    while i < n
        invariant
            hi - lo == n,
            lo <= hi <= v@.len(),
            n == s@.len(),
            0 <= i <= n,
            forall|k: int| 0 <= k < i ==> v@.subrange(lo as int, hi as int)[k] == s@[k],
        decreases n - i,
    {
        let c = s.get_char(i);
        if v[lo + i] != c {
            proof {
                assert(v@.subrange(lo as int, hi as int)[i as int] != s@[i as int]);
            }
            return false;
        }
        i = i + 1;
    }
    proof {
        assert(v@.subrange(lo as int, hi as int) =~= s@);
    }
    true
}

fn is_digit_exec(c: char) -> (r: bool)
    ensures
        r == is_digit(c),
{
    c >= '0' && c <= '9'
}

fn check_all_digits(v: &Vec<char>, lo: usize, hi: usize) -> (r: bool)
    requires
        lo <= hi <= v@.len(),
    ensures
        r == all_digits(v@.subrange(lo as int, hi as int)),
{
    if lo == hi {
        return false;
    }
    let mut i: usize = lo;
    while i < hi
        invariant
            lo <= i <= hi <= v@.len(),
            forall|k: int| lo <= k < i ==> is_digit(#[trigger] v@[k]),
        decreases hi - i,
    {
        if !is_digit_exec(v[i]) {
            proof {
                assert(v@.subrange(lo as int, hi as int)[i - lo] == v@[i as int]);
            }
            return false;
        }
        i = i + 1;
    }
    proof {
        assert forall|k: int| 0 <= k < hi - lo implies is_digit(
            #[trigger] v@.subrange(lo as int, hi as int)[k],
        ) by {
            assert(v@.subrange(lo as int, hi as int)[k] == v@[k + lo]);
        }
    }
    true
}

fn digit_val_exec(c: char) -> (r: usize)
    requires
        is_digit(c),
    ensures
        r == digit_val(c),
{
    (c as usize) - ('0' as usize)
}

fn parse_digits(v: &Vec<char>, lo: usize, hi: usize) -> (r: Option<usize>)
    requires
        lo <= hi <= v@.len(),
        all_digits(v@.subrange(lo as int, hi as int)),
    ensures
        match r {
            Some(x) => x as nat == digits_val(v@.subrange(lo as int, hi as int)),
            None => digits_val(v@.subrange(lo as int, hi as int)) > usize::MAX as nat,
        },
{
    let ghost whole = v@.subrange(lo as int, hi as int);
    let mut acc: usize = 0;
    let mut i: usize = lo;
    while i < hi
        invariant
            lo <= i <= hi <= v@.len(),
            whole == v@.subrange(lo as int, hi as int),
            all_digits(whole),
            acc as nat == digits_val(v@.subrange(lo as int, i as int)),
        decreases hi - i,
    {
        let ghost pre = v@.subrange(lo as int, i as int);
        let ghost post = v@.subrange(lo as int, i as int + 1);
        proof {
            assert(post.drop_last() =~= pre);
            assert(post.last() == v@[i as int]);
            assert(whole[i - lo] == v@[i as int]);
            assert(digits_val(post) == digits_val(pre) * 10 + digit_val(v@[i as int]));
        }
        let d = digit_val_exec(v[i]);
        if acc > usize::MAX / 10 || (acc == usize::MAX / 10 && d > usize::MAX % 10) {
            proof {
                assert(usize::MAX as int == (usize::MAX as int / 10) * 10 + usize::MAX as int
                    % 10);
                assert(digits_val(post) > usize::MAX as nat);
                lemma_digits_val_prefix_le(whole, i as int + 1 - lo);
                assert(whole.subrange(0, i as int + 1 - lo) =~= post);
            }
            return None;
        }
        acc = acc * 10 + d;
        i = i + 1;
    }
    proof {
        assert(v@.subrange(lo as int, i as int) =~= whole);
    }
    Some(acc)
}

fn rfind_lbracket_exec(v: &Vec<char>, hi: usize) -> (r: Option<usize>)
    requires
        hi <= v@.len(),
    ensures
        match r {
            Some(j) => Some(j as int) == rfind_lbracket(v@.subrange(0, hi as int)),
            None => rfind_lbracket(v@.subrange(0, hi as int)) is None,
        },
{
    let mut i: usize = hi;
    while i > 0
        invariant
            0 <= i <= hi <= v@.len(),
            rfind_lbracket(v@.subrange(0, hi as int)) == rfind_lbracket(
                v@.subrange(0, i as int),
            ),
        decreases i,
    {
        i = i - 1;
        if v[i] == '[' {
            proof {
                assert(v@.subrange(0, i as int + 1).last() == v@[i as int]);
            }
            return Some(i);
        }
        proof {
            assert(v@.subrange(0, i as int + 1).last() == v@[i as int]);
            assert(v@.subrange(0, i as int + 1).drop_last() =~= v@.subrange(0, i as int));
        }
    }
    None
}

fn width_of_exec(v: &Vec<char>, lo: usize, hi: usize) -> (r: Option<u16>)
    requires
        lo <= hi <= v@.len(),
    ensures
        r == width_of(v@.subrange(lo as int, hi as int)),
{
    if range_eq_str(v, lo, hi, "8") { Some(8) }
    else if range_eq_str(v, lo, hi, "16") { Some(16) }
    else if range_eq_str(v, lo, hi, "32") { Some(32) }
    else if range_eq_str(v, lo, hi, "64") { Some(64) }
    else if range_eq_str(v, lo, hi, "128") { Some(128) }
    else if range_eq_str(v, lo, hi, "256") { Some(256) }
    else { None }
}

fn parse_base(v: &Vec<char>) -> (r: Option<ParamType>)
    ensures
        r == parse_base_spec(v@),
{
    let n = v.len();
    proof {
        assert(v@.subrange(0, n as int) =~= v@);
    }
    if range_eq_str(v, 0, n, "bool") { Some(ParamType::Bool) }
    else if range_eq_str(v, 0, n, "address") { Some(ParamType::Address) }
    else if range_eq_str(v, 0, n, "bytes") { Some(ParamType::Bytes) }
    else if range_eq_str(v, 0, n, "string") { Some(ParamType::Str) }
    else if range_eq_str(v, 0, n, "int") { Some(ParamType::Int(256)) }
    else if range_eq_str(v, 0, n, "uint") { Some(ParamType::Uint(256)) }
    else if range_eq_str(v, 0, n, "tuple") { Some(ParamType::Tuple(Box::new(ParamTypeList::Nil))) }
    else if n > 4 && range_eq_str(v, 0, 4, "uint") {
        match width_of_exec(v, 4, n) {
            Some(w) => Some(ParamType::Uint(w)),
            None => None,
        }
    } else if n > 3 && range_eq_str(v, 0, 3, "int") {
        match width_of_exec(v, 3, n) {
            Some(w) => Some(ParamType::Int(w)),
            None => None,
        }
    } else if n > 5 && range_eq_str(v, 0, 5, "bytes") && check_all_digits(v, 5, n) {
        match parse_digits(v, 5, n) {
            Some(x) => Some(ParamType::FixedBytes(x)),
            None => None,
        }
    } else {
        None
    }
}

fn top_comma_exec(v: &Vec<char>) -> (r: Option<usize>)
    ensures
        match r {
            Some(i) => Some(i as int) == top_comma_from(v@, 0, 0) && i < v@.len(),
            None => top_comma_from(v@, 0, 0) is None,
        },
{
    let mut i: usize = 0;
    let mut depth: i128 = 0;
    while i < v.len()
        invariant
            0 <= i <= v@.len(),
            -(i as int) <= depth <= i as int,
            top_comma_from(v@, 0, 0) == top_comma_from(v@, i as int, depth as int),
        decreases v@.len() - i,
    {
        let c = v[i];
        if c == ',' && depth == 0 {
            return Some(i);
        }
        if c == '(' || c == '[' {
            depth = depth + 1;
        } else if c == ')' || c == ']' {
            depth = depth - 1;
        }
        i = i + 1;
    }
    None
}

/// Parses a character run against the type grammar; exactly the strings of
/// the grammar yield a type, everything else is malformed.
pub fn parse_type_chars(v: &Vec<char>) -> (r: Option<ParamType>)
    ensures
        r == parse_type_spec(v@),
    decreases v@.len(), 1int,
{
    let n = v.len();
    if n == 0 {
        return None;
    }
    if v[n - 1] == ']' {
        proof {
            assert(v@.subrange(0, n as int) =~= v@);
            lemma_rfind_props(v@);
        }
        return match rfind_lbracket_exec(v, n) {
            None => None,
            Some(j) => {
                if j == n - 1 {
                    None
                } else {
                    let rest = copy_range(v, 0, j);
                    if rest.len() == 0 {
                        None
                    } else if j + 1 == n - 1 {
                        match parse_type_chars(&rest) {
                            Some(t) => Some(ParamType::Array(Box::new(t))),
                            None => None,
                        }
                    } else if check_all_digits(v, j + 1, n - 1) {
                        match parse_digits(v, j + 1, n - 1) {
                            Some(x) => match parse_type_chars(&rest) {
                                Some(t) => Some(ParamType::FixedArray(Box::new(t), x)),
                                None => None,
                            },
                            None => None,
                        }
                    } else {
                        None
                    }
                }
            },
        };
    }
    if n >= 2 && v[0] == '(' && v[n - 1] == ')' {
        if n == 2 {
            proof {
                assert(v@.subrange(1, n - 1).len() == 0);
            }
            return Some(ParamType::Tuple(Box::new(ParamTypeList::Nil)));
        }
        let inner = copy_range(v, 1, n - 1);
        return match parse_list_chars(&inner) {
            Some(l) => Some(ParamType::Tuple(Box::new(l))),
            None => None,
        };
    }
    parse_base(v)
}

/// Parses a comma-separated list of types, as written between the
/// parentheses of a tuple type.
pub fn parse_list_chars(v: &Vec<char>) -> (r: Option<ParamTypeList>)
    ensures
        r == parse_list_spec(v@),
    decreases v@.len(), 2int,
{
    match top_comma_exec(v) {
        None => match parse_type_chars(v) {
            Some(t) => Some(ParamTypeList::Cons(t, Box::new(ParamTypeList::Nil))),
            None => None,
        },
        Some(i) => {
            let n = v.len();
            let head = copy_range(v, 0, i);
            let tail = copy_range(v, i + 1, n);
            match parse_type_chars(&head) {
                Some(t) => match parse_list_chars(&tail) {
                    Some(l) => Some(ParamTypeList::Cons(t, Box::new(l))),
                    None => None,
                },
                None => None,
            }
        },
    }
}

/// Collects the characters of a string slice.
pub fn str_chars(s: &str) -> (r: Vec<char>)
    ensures
        r@ == s@,
{
    let n = s.unicode_len();
    let mut r: Vec<char> = Vec::new();
    let mut i: usize = 0;
    while i < n
        invariant
            n == s@.len(),
            0 <= i <= n,
            r@ == s@.subrange(0, i as int),
        decreases n - i,
    {
        r.push(s.get_char(i));
        proof {
            assert(s@.subrange(0, i as int).push(s@[i as int]) =~= s@.subrange(0, i as int + 1));
        }
        i = i + 1;
    }
    proof {
        assert(s@.subrange(0, n as int) =~= s@);
    }
    r
}

/// Parses a raw textual type against the grammar.
pub fn parse_type_str(s: &str) -> (r: Option<ParamType>)
    ensures
        r == parse_type_spec(s@),
{
    let v = str_chars(s);
    parse_type_chars(&v)
}

} // verus!

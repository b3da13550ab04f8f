//! The routing table: which handler a method/path pair selects, and which
//! routes sit behind the admin gate.
//!
//! Path parameters are decimal integers; their parsing is verified here
//! against an exact grammar (optional sign, then digits, value within
//! `i32` range).

use vstd::prelude::*;
use vstd::string::StrSliceExecFns;
use crate::text::{spec_dec_int, spec_dec_nat, spec_digit_char, str_eq};

verus! {

/// The request methods the routing table distinguishes.
#[derive(Debug, Clone, Copy, PartialEq, Eq, Structural)]
pub enum Method {
    Get,
    Post,
    Delete,
    Other,
}

/// The handler selected for a request, with its decoded path parameter
/// where one exists.
#[derive(Debug, Clone, Copy, PartialEq, Eq, Structural)]
pub enum RouteMatch {
    Root,
    CreateUser,
    CreateUserDb,
    Users,
    AxumUsers,
    ShowItem(i32),
    AddItem,
    DeleteUser(i32),
    AdminGetAppState,
    NotFound,
}

/// A decimal digit character.
pub open spec fn spec_is_digit(c: char) -> bool {
    '0' <= c && c <= '9'
}

/// The value of one decimal digit character.
pub open spec fn spec_digit_val(c: char) -> int {
    c as int - '0' as int
}

/// All characters of `s` are decimal digits.
pub open spec fn spec_all_digits(s: Seq<char>) -> bool {
    forall|i: int| 0 <= i < s.len() ==> spec_is_digit(s[i])
}

/// The value of a digit string read in base ten.
pub open spec fn spec_digits_val(s: Seq<char>) -> int
    decreases s.len(),
{
    if s.len() == 0 {
        0
    } else {
        spec_digits_val(s.drop_last()) * 10 + spec_digit_val(s.last())
    }
}

/// The integer a string denotes, when it does: an optional sign, then at
/// least one digit, and a value within `i32` range.
pub open spec fn spec_parse_i32(s: Seq<char>) -> Option<int> {
    let neg = s.len() > 0 && s[0] == '-';
    let digits = if s.len() > 0 && (s[0] == '-' || s[0] == '+') {
        s.drop_first()
    } else {
        s
    };
    if digits.len() == 0 || !spec_all_digits(digits) {
        Option::None
    } else {
        let v = if neg {
            -spec_digits_val(digits)
        } else {
            spec_digits_val(digits)
        };
        if -2147483648 <= v <= 2147483647 {
            Option::Some(v)
        } else {
            Option::None
        }
    }
}

proof fn lemma_digits_val_nonneg(s: Seq<char>)
    requires
        spec_all_digits(s),
    ensures
        spec_digits_val(s) >= 0,
    decreases s.len(),
{
    if s.len() > 0 {
        assert(spec_all_digits(s.drop_last()));
        lemma_digits_val_nonneg(s.drop_last());
    }
}

proof fn lemma_digits_val_step(s: Seq<char>, i: int)
    requires
        0 <= i < s.len(),
    ensures
        spec_digits_val(s.subrange(0, i + 1)) == spec_digits_val(s.subrange(0, i)) * 10
            + spec_digit_val(s[i]),
{
    assert(s.subrange(0, i + 1).drop_last() =~= s.subrange(0, i));
    assert(s.subrange(0, i + 1).last() == s[i]);
}

proof fn lemma_digits_val_extend_ge(s: Seq<char>, i: int)
    requires
        spec_all_digits(s),
        0 <= i <= s.len(),
    ensures
        spec_digits_val(s) >= spec_digits_val(s.subrange(0, i)),
    decreases s.len() - i,
{
    if i == s.len() {
        assert(s.subrange(0, i) =~= s);
    } else {
        assert(spec_all_digits(s.subrange(0, i)));
        lemma_digits_val_nonneg(s.subrange(0, i));
        lemma_digits_val_step(s, i);
        lemma_digits_val_extend_ge(s, i + 1);
    }
}

/// Reads a decimal integer, exactly as the routing layer decodes a path
/// parameter: an optional '+' or '-' sign, then one or more digits, value
/// within `i32` range; anything else is rejected.
pub fn parse_i32(s: &str) -> (r: Option<i32>)
    ensures
        r is Some <==> spec_parse_i32(s@) is Some,
        r matches Some(n) ==> spec_parse_i32(s@) == Option::Some(n as int),
{
    let len = s.unicode_len();
    let mut start: usize = 0;
    let mut neg = false;
    if len > 0 {
        let c0 = s.get_char(0);
        if c0 == '-' {
            neg = true;
            start = 1;
        } else if c0 == '+' {
            start = 1;
        }
    }
    let ghost digits: Seq<char> = if start == 1 {
        s@.drop_first()
    } else {
        s@
    };
    proof {
        assert(digits =~= s@.subrange(start as int, len as int));
    }
    if start == len {
        return None;
    }
    let mut acc: u64 = 0;
    let mut i: usize = start;
    while i < len
        invariant
            start <= i <= len,
            start < len,
            len == s@.len(),
            start <= 1,
            (start == 1) == (len > 0 && (s@[0] == '-' || s@[0] == '+')),
            neg == (len > 0 && s@[0] == '-'),
            digits == s@.subrange(start as int, len as int),
            spec_all_digits(s@.subrange(start as int, i as int)),
            acc == spec_digits_val(s@.subrange(start as int, i as int)),
            acc <= 2147483648,
        decreases len - i,
    {
        let c = s.get_char(i);
        if c < '0' || c > '9' {
            proof {
                assert(digits[i - start] == c);
                assert(!spec_all_digits(digits));
            }
            return None;
        }
        let d: u64 = (c as u32 - 48) as u64;
        let new_acc: u64 = acc * 10 + d;
        proof {
            assert(s@.subrange(start as int, i as int) =~= digits.subrange(0, i - start));
            assert(s@.subrange(start as int, i + 1 as int) =~= digits.subrange(0, i + 1 - start));
            lemma_digits_val_step(digits, i - start);
            assert(digits[i - start] == c);
            assert(spec_digit_val(c) == d as int);
            assert(spec_digits_val(digits.subrange(0, i + 1 - start)) == new_acc as int);
        }
        if new_acc > 2147483648 {
            proof {
                assert(s@.subrange(0, s@.len() as int) =~= s@);
                assert(s@.drop_first() =~= s@.subrange(1, s@.len() as int));
                if spec_all_digits(digits) {
                    lemma_digits_val_extend_ge(digits, i + 1 - start);
                    assert(spec_digits_val(digits) > 2147483648);
                }
                assert(spec_parse_i32(s@) is None);
            }
            return None;
        }
        acc = new_acc;
        i = i + 1;
    }
    proof {
        assert(s@.subrange(start as int, len as int) =~= digits);
    }
    if neg {
        if acc == 2147483648 {
            Some(-2147483648)
        } else {
            Some(-(acc as i32))
        }
    } else {
        if acc > 2147483647 {
            None
        } else {
            Some(acc as i32)
        }
    }
}

/// The handler each method/path pair selects: the fixed paths of the
/// routing table, the two parameterized paths with a well-formed decimal
/// id, and nothing else.
pub open spec fn spec_route(method: Method, path: Seq<char>) -> RouteMatch {
    match method {
        Method::Get => {
            if path == "/"@ {
                RouteMatch::Root
            } else if path == "/users"@ {
                RouteMatch::Users
            } else if path == "/axum-users"@ {
                RouteMatch::AxumUsers
            } else if path == "/admin/get_app_state"@ {
                RouteMatch::AdminGetAppState
            } else if path.len() > 6 && path.subrange(0, 6) == "/item/"@ {
                match spec_parse_i32(path.subrange(6, path.len() as int)) {
                    Option::Some(v) => RouteMatch::ShowItem(v as i32),
                    Option::None => RouteMatch::NotFound,
                }
            } else {
                RouteMatch::NotFound
            }
        },
        Method::Post => {
            if path == "/create-user"@ {
                RouteMatch::CreateUser
            } else if path == "/create-user-db"@ {
                RouteMatch::CreateUserDb
            } else if path == "/add-item"@ {
                RouteMatch::AddItem
            } else {
                RouteMatch::NotFound
            }
        },
        Method::Delete => {
            if path.len() > 13 && path.subrange(0, 13) == "/delete-user/"@ {
                match spec_parse_i32(path.subrange(13, path.len() as int)) {
                    Option::Some(v) => RouteMatch::DeleteUser(v as i32),
                    Option::None => RouteMatch::NotFound,
                }
            } else {
                RouteMatch::NotFound
            }
        },
        Method::Other => RouteMatch::NotFound,
    }
}

/// Matches a request against the routing table.
pub fn match_route(method: Method, path: &str) -> (r: RouteMatch)
    ensures
        r == spec_route(method, path@),
{
    let len = path.unicode_len();
    match method {
        Method::Get => {
            if str_eq(path, "/") {
                RouteMatch::Root
            } else if str_eq(path, "/users") {
                RouteMatch::Users
            } else if str_eq(path, "/axum-users") {
                RouteMatch::AxumUsers
            } else if str_eq(path, "/admin/get_app_state") {
                RouteMatch::AdminGetAppState
            } else if len > 6 && str_eq(path.substring_char(0, 6), "/item/") {
                match parse_i32(path.substring_char(6, len)) {
                    Option::Some(id) => RouteMatch::ShowItem(id),
                    Option::None => RouteMatch::NotFound,
                }
            } else {
                RouteMatch::NotFound
            }
        },
        Method::Post => {
            if str_eq(path, "/create-user") {
                RouteMatch::CreateUser
            } else if str_eq(path, "/create-user-db") {
                RouteMatch::CreateUserDb
            } else if str_eq(path, "/add-item") {
                RouteMatch::AddItem
            } else {
                RouteMatch::NotFound
            }
        },
        Method::Delete => {
            if len > 13 && str_eq(path.substring_char(0, 13), "/delete-user/") {
                match parse_i32(path.substring_char(13, len)) {
                    Option::Some(id) => RouteMatch::DeleteUser(id),
                    Option::None => RouteMatch::NotFound,
                }
            } else {
                RouteMatch::NotFound
            }
        },
        Method::Other => RouteMatch::NotFound,
    }
}

/// The admin gate applies exactly to the admin route group.
pub open spec fn spec_route_requires_auth(r: RouteMatch) -> bool {
    r is AdminGetAppState
}

/// Whether a matched route sits behind the admin API-key gate.
pub fn route_requires_auth(r: RouteMatch) -> (b: bool)
    ensures
        b == spec_route_requires_auth(r),
{
    match r {
        RouteMatch::AdminGetAppState => true,
        _ => false,
    }
}

proof fn lemma_digit_char_is_digit(d: int)
    requires
        0 <= d <= 9,
    ensures
        spec_is_digit(spec_digit_char(d)),
        spec_digit_val(spec_digit_char(d)) == d,
{
}

proof fn lemma_dec_nat_digits(n: nat)
    ensures
        spec_dec_nat(n).len() >= 1,
        spec_all_digits(spec_dec_nat(n)),
        spec_digits_val(spec_dec_nat(n)) == n,
    decreases n,
{
    if n < 10 {
        lemma_digit_char_is_digit(n as int);
        assert(spec_dec_nat(n) == seq![spec_digit_char(n as int)]);
        assert(spec_dec_nat(n).drop_last() =~= Seq::<char>::empty());
        assert(spec_dec_nat(n).last() == spec_digit_char(n as int));
        assert(spec_digits_val(spec_dec_nat(n)) == spec_digits_val(Seq::<char>::empty()) * 10
            + spec_digit_val(spec_digit_char(n as int)));
        assert(spec_digits_val(spec_dec_nat(n)) == n);
    } else {
        lemma_dec_nat_digits(n / 10);
        lemma_digit_char_is_digit((n % 10) as int);
        let prefix = spec_dec_nat(n / 10);
        let whole = spec_dec_nat(n);
        assert(whole == prefix + seq![spec_digit_char((n % 10) as int)]);
        assert(whole.drop_last() =~= prefix);
        assert(whole.last() == spec_digit_char((n % 10) as int));
        assert(spec_digits_val(whole) == spec_digits_val(prefix) * 10 + spec_digit_val(
            whole.last(),
        ));
        vstd::arithmetic::div_mod::lemma_fundamental_div_mod(n as int, 10);
        assert forall|i: int| 0 <= i < whole.len() implies spec_is_digit(whole[i]) by {
            if i < whole.len() - 1 {
                assert(whole[i] == prefix[i]);
            } else {
                assert(whole[i] == spec_digit_char((n % 10) as int));
            }
        }
    }
}

/// Law: rendering and parsing are inverse on the whole `i32` range; the
/// canonical decimal notation of a value always decodes to exactly that
/// value.
pub proof fn lemma_parse_inverts_render(n: int)
    requires
        -2147483648 <= n <= 2147483647,
    ensures
        spec_parse_i32(spec_dec_int(n)) == Option::Some(n),
{
    let s = spec_dec_int(n);
    if n < 0 {
        lemma_dec_nat_digits((-n) as nat);
        assert(s == seq!['-'] + spec_dec_nat((-n) as nat));
        assert(s[0] == '-');
        assert(s.drop_first() =~= spec_dec_nat((-n) as nat));
    } else {
        lemma_dec_nat_digits(n as nat);
        assert(s == spec_dec_nat(n as nat));
        assert(spec_is_digit(s[0]));
    }
}

/// Law: the admin gate guards exactly the admin route group; a request
/// needs the API key if and only if it is a GET of the admin state path.
pub proof fn lemma_auth_gate_exactly_admin(method: Method, path: Seq<char>)
    ensures
        spec_route_requires_auth(spec_route(method, path)) <==> (method is Get && path
            == "/admin/get_app_state"@),
{
    reveal_strlit("/");
    reveal_strlit("/users");
    reveal_strlit("/axum-users");
    reveal_strlit("/admin/get_app_state");
}

} // verus!

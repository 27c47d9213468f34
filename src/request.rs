//! Reading the parts of a raw request that the service needs: the route,
//! the identifier segment of the path, and the body.
use vstd::prelude::*;

verus! {

/// Unicode `White_Space`, the set that `char::is_whitespace` tests.
pub open spec fn is_space(c: char) -> bool {
    let n = c as u32;
    (9 <= n && n <= 13) || n == 32 || n == 0x85 || n == 0xa0 || n == 0x1680
        || (0x2000 <= n && n <= 0x200a) || n == 0x2028 || n == 0x2029 || n == 0x202f
        || n == 0x205f || n == 0x3000
}

/// Index of the first `/` at or after `i`, or the length when there is none.
pub open spec fn next_slash(s: Seq<char>, i: int) -> int
    decreases s.len() - i,
{
    if i >= s.len() {
        s.len() as int
    } else if s[i] == '/' {
        i
    } else {
        next_slash(s, i + 1)
    }
}

/// Index of the first whitespace character at or after `i`, or the length.
pub open spec fn next_space(s: Seq<char>, i: int) -> int
    decreases s.len() - i,
{
    if i >= s.len() {
        s.len() as int
    } else if is_space(s[i]) {
        i
    } else {
        next_space(s, i + 1)
    }
}

/// Index of the first non-whitespace character at or after `i`, or the length.
pub open spec fn next_non_space(s: Seq<char>, i: int) -> int
    decreases s.len() - i,
{
    if i >= s.len() {
        s.len() as int
    } else if !is_space(s[i]) {
        i
    } else {
        next_non_space(s, i + 1)
    }
}

/// The third `/`-delimited segment of `s` (the one after the second `/`),
/// empty when `s` holds fewer than two `/`.
pub open spec fn third_segment(s: Seq<char>) -> Seq<char> {
    let a = next_slash(s, 0);
    let b = next_slash(s, a + 1);
    if a >= s.len() || b >= s.len() {
        Seq::empty()
    } else {
        s.subrange(b + 1, next_slash(s, b + 1))
    }
}

/// The first whitespace-delimited word of `t`, empty when there is none.
pub open spec fn first_word(t: Seq<char>) -> Seq<char> {
    let st = next_non_space(t, 0);
    t.subrange(st, next_space(t, st))
}

/// The identifier text of a request line: the first word of its third
/// `/`-delimited segment, which drops the protocol version after the path.
pub open spec fn id_text(request: Seq<char>) -> Seq<char> {
    first_word(third_segment(request))
}

fn space(c: char) -> (r: bool)
    ensures
        r == is_space(c),
{
    let n = c as u32;
    (9 <= n && n <= 13) || n == 32 || n == 0x85 || n == 0xa0 || n == 0x1680 || (0x2000 <= n
        && n <= 0x200a) || n == 0x2028 || n == 0x2029 || n == 0x202f || n == 0x205f || n
        == 0x3000
}

fn find_slash(s: &str, len: usize, from: usize) -> (r: usize)
    requires
        len == s@.len(),
        from <= len,
    ensures
        r == next_slash(s@, from as int),
        from <= r <= len,
{
    let mut i: usize = from;
    while i < len
        invariant
            from <= i <= len,
            len == s@.len(),
            next_slash(s@, i as int) == next_slash(s@, from as int),
        decreases len - i,
    {
        if s.get_char(i) == '/' {
            return i;
        }
        i = i + 1;
    }
    i
}

fn find_space(s: &str, len: usize, from: usize) -> (r: usize)
    requires
        len == s@.len(),
        from <= len,
    ensures
        r == next_space(s@, from as int),
        from <= r <= len,
{
    let mut i: usize = from;
    while i < len
        invariant
            from <= i <= len,
            len == s@.len(),
            next_space(s@, i as int) == next_space(s@, from as int),
        decreases len - i,
    {
        if space(s.get_char(i)) {
            return i;
        }
        i = i + 1;
    }
    i
}

fn find_non_space(s: &str, len: usize, from: usize) -> (r: usize)
    requires
        len == s@.len(),
        from <= len,
    ensures
        r == next_non_space(s@, from as int),
        from <= r <= len,
{
    let mut i: usize = from;
    while i < len
        invariant
            from <= i <= len,
            len == s@.len(),
            next_non_space(s@, i as int) == next_non_space(s@, from as int),
        decreases len - i,
    {
        if !space(s.get_char(i)) {
            return i;
        }
        i = i + 1;
    }
    i
}

/// The identifier text of a request: see `id_text`.
pub fn get_id(request: &str) -> (r: &str)
    ensures
        r@ == id_text(request@),
{
    let len = request.unicode_len();
    let a = find_slash(request, len, 0);
    if a == len {
        return request.substring_char(0, 0);
    }
    let b = find_slash(request, len, a + 1);
    if b == len {
        return request.substring_char(0, 0);
    }
    let c = find_slash(request, len, b + 1);
    let seg = request.substring_char(b + 1, c);
    let seg_len = c - (b + 1);
    let st = find_non_space(seg, seg_len, 0);
    let en = find_space(seg, seg_len, st);
    seg.substring_char(st, en)
}

/// The value of a non-empty run of decimal digits.
pub open spec fn digits_value(d: Seq<char>) -> nat
    decreases d.len(),
{
    if d.len() == 0 {
        0
    } else {
        digits_value(d.drop_last()) * 10 + ((d.last() as u32) - ('0' as u32)) as nat
    }
}

pub open spec fn is_digit(c: char) -> bool {
    '0' <= c && c <= '9'
}

pub open spec fn all_digits(d: Seq<char>) -> bool {
    forall|i: int| 0 <= i < d.len() ==> is_digit(#[trigger] d[i])
}

/// Reading `t` as a 32-bit signed decimal integer: an optional `+` or `-`,
/// then one or more digits, whose value must lie in the range of `i32`.
pub open spec fn parse_i32(t: Seq<char>) -> Option<i32> {
    let neg = t.len() > 0 && t[0] == '-';
    let signed = t.len() > 0 && (t[0] == '-' || t[0] == '+');
    let d = if signed {
        t.drop_first()
    } else {
        t
    };
    let v: int = if neg {
        -(digits_value(d) as int)
    } else {
        digits_value(d) as int
    };
    if d.len() == 0 || !all_digits(d) || v < i32::MIN || v > i32::MAX {
        None
    } else {
        Some(v as i32)
    }
}

/// Reads an identifier as `i32`; `None` where `parse_i32` gives none.
pub fn parse_id(text: &str) -> (r: Option<i32>)
    ensures
        r == parse_i32(text@),
{
    let len = text.unicode_len();
    if len == 0 {
        return None;
    }
    let first = text.get_char(0);
    let neg = first == '-';
    let start: usize = if first == '-' || first == '+' {
        1
    } else {
        0
    };
    if start == len {
        return None;
    }
    let ghost d = text@.subrange(start as int, len as int);
    assert(start == 1 ==> d =~= text@.drop_first());
    assert(start == 0 ==> d =~= text@);
    assert(d == (if text@.len() > 0 && (text@[0] == '-' || text@[0] == '+') {
        text@.drop_first()
    } else {
        text@
    }));
    let cap: u64 = 2147483649;
    let mut acc: u64 = 0;
    let mut i: usize = start;
    while i < len
        invariant
            start <= i <= len,
            len == text@.len(),
            d == text@.subrange(start as int, len as int),
            d == (if text@.len() > 0 && (text@[0] == '-' || text@[0] == '+') {
                text@.drop_first()
            } else {
                text@
            }),
            d.len() > 0,
            neg == (text@[0] == '-'),
            cap == 2147483649,
            forall|k: int| 0 <= k < i - start ==> is_digit(#[trigger] d[k]),
            acc == if digits_value(d.subrange(0, i - start)) < cap {
                digits_value(d.subrange(0, i - start))
            } else {
                cap as nat
            },
        decreases len - i,
    {
        let c = text.get_char(i);
        if !('0' <= c && c <= '9') {
            assert(d[i - start] == c);
            assert(!all_digits(d));
            return None;
        }
        let ghost pre = d.subrange(0, i - start);
        let ghost next = d.subrange(0, i + 1 - start);
        assert(next.drop_last() =~= pre);
        let dv: u64 = ((c as u32) - ('0' as u32)) as u64;
        assert(digits_value(next) == digits_value(pre) * 10 + dv);
        if acc < cap {
            let n = acc * 10 + dv;
            acc = if n < cap {
                n
            } else {
                cap
            };
        } else {
            assert(digits_value(next) >= digits_value(pre)) by (nonlinear_arith)
                requires
                    digits_value(next) == digits_value(pre) * 10 + dv,
            ;
        }
        i = i + 1;
    }
    assert(d.subrange(0, len - start) =~= d);
    if neg {
        if acc <= 2147483648 {
            Some((0 - (acc as i64)) as i32)
        } else {
            None
        }
    } else {
        if acc <= 2147483647 {
            Some(acc as i32)
        } else {
            None
        }
    }
}

/// Index of the first `\r\n\r\n` at or after `i`, or the length.
pub open spec fn next_separator(s: Seq<char>, i: int) -> int
    decreases s.len() - i,
{
    if i + 4 > s.len() {
        s.len() as int
    } else if s[i] == '\r' && s[i + 1] == '\n' && s[i + 2] == '\r' && s[i + 3] == '\n' {
        i
    } else {
        next_separator(s, i + 1)
    }
}

/// The body of a request: what follows its first blank line, empty when
/// there is no blank line.
pub open spec fn body_text(request: Seq<char>) -> Seq<char> {
    let k = next_separator(request, 0);
    if k + 4 <= request.len() {
        request.subrange(k + 4, request.len() as int)
    } else {
        Seq::empty()
    }
}

/// The body of a request: see `body_text`.
pub fn request_body(request: &str) -> (r: &str)
    ensures
        r@ == body_text(request@),
{
    let len = request.unicode_len();
    let mut i: usize = 0;
    while len >= 4 && i <= len - 4
        invariant
            i <= len,
            len == request@.len(),
            next_separator(request@, i as int) == next_separator(request@, 0),
        decreases len - i,
    {
        if request.get_char(i) == '\r' && request.get_char(i + 1) == '\n' && request.get_char(
            i + 2,
        ) == '\r' && request.get_char(i + 3) == '\n' {
            return request.substring_char(i + 4, len);
        }
        i = i + 1;
    }
    request.substring_char(len, len)
}

pub open spec fn starts_with(s: Seq<char>, p: Seq<char>) -> bool {
    p.len() <= s.len() && s.subrange(0, p.len() as int) == p
}

fn has_prefix(s: &str, p: &str) -> (r: bool)
    ensures
        r == starts_with(s@, p@),
{
    let len = s.unicode_len();
    let plen = p.unicode_len();
    if plen > len {
        return false;
    }
    let mut i: usize = 0;
    while i < plen
        invariant
            i <= plen <= len,
            len == s@.len(),
            plen == p@.len(),
            forall|k: int| 0 <= k < i ==> s@[k] == p@[k],
        decreases plen - i,
    {
        if s.get_char(i) != p.get_char(i) {
            assert(s@.subrange(0, plen as int)[i as int] != p@[i as int]);
            return false;
        }
        i = i + 1;
    }
    assert(s@.subrange(0, plen as int) =~= p@);
    true
}

/// The operation a request asks for.
#[derive(PartialEq, Eq, Structural, Clone, Copy, Debug)]
pub enum Route {
    Create,
    ReadOne,
    ReadAll,
    Update,
    Delete,
    Unmatched,
}

/// Routing by prefix, in a fixed order: `GET /users/` is tried before
/// `GET /users`, which it extends.
pub open spec fn route_of(request: Seq<char>) -> Route {
    if starts_with(request, "POST /users"@) {
        Route::Create
    } else if starts_with(request, "GET /users/"@) {
        Route::ReadOne
    } else if starts_with(request, "GET /users"@) {
        Route::ReadAll
    } else if starts_with(request, "PUT /users/"@) {
        Route::Update
    } else if starts_with(request, "DELETE /users/"@) {
        Route::Delete
    } else {
        Route::Unmatched
    }
}

/// The operation that `request` asks for: see `route_of`.
pub fn route(request: &str) -> (r: Route)
    ensures
        r == route_of(request@),
{
    if has_prefix(request, "POST /users") {
        Route::Create
    } else if has_prefix(request, "GET /users/") {
        Route::ReadOne
    } else if has_prefix(request, "GET /users") {
        Route::ReadAll
    } else if has_prefix(request, "PUT /users/") {
        Route::Update
    } else if has_prefix(request, "DELETE /users/") {
        Route::Delete
    } else {
        Route::Unmatched
    }
}

} // verus!

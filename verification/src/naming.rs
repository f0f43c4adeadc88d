//! Names for the temporary files that carry submitted code to the engine.
//!
//! A name is made of a token, written in decimal, a hyphen, and the base name
//! of the file that the caller named. The base name keeps the extension, by
//! which the engine picks its language rules; the token keeps apart the files
//! of requests that run at the same time. A name never holds a path separator,
//! so the file it names lies directly in the directory it is joined to.

use vstd::prelude::*;
use vstd::string::StringExecFns;
use crate::text::{chars_of, slice_of, string_of};

verus! {

/// The position of the last separator in `path`, or `-1` if it has none.
pub open spec fn last_separator(path: Seq<char>) -> int
    decreases path.len(),
{
    if path.len() == 0 {
        -1
    } else if path.last() == '/' {
        path.len() - 1
    } else {
        last_separator(path.drop_last())
    }
}

/// The pieces of `path` that its separators delimit, in order. A path
/// without separators is one piece; pieces may be empty.
pub open spec fn components(path: Seq<char>) -> Seq<Seq<char>>
    decreases path.len(),
{
    let k = last_separator(path);
    if 0 <= k < path.len() {
        components(path.take(k)).push(path.skip(k + 1))
    } else {
        seq![path]
    }
}

/// The component that stands for the directory itself.
pub open spec fn current_dir() -> Seq<char> {
    seq!['.']
}

/// The component that stands for the directory above.
pub open spec fn parent_dir() -> Seq<char> {
    seq!['.', '.']
}

/// A component counts toward a path's structure unless it is empty or names
/// the directory itself.
pub open spec fn is_named(component: Seq<char>) -> bool {
    component.len() > 0 && component != current_dir()
}

/// The last of `parts` that is named, if there is one.
pub open spec fn last_named(parts: Seq<Seq<char>>) -> Option<Seq<char>>
    decreases parts.len(),
{
    if parts.len() == 0 {
        None
    } else if is_named(parts.last()) {
        Some(parts.last())
    } else {
        last_named(parts.drop_last())
    }
}

/// The final component of `path`: its last named component, unless that is
/// the parent directory. A path that ends in `..`, or that has no named
/// component at all, has no base name.
pub open spec fn base_name(path: Seq<char>) -> Option<Seq<char>> {
    match last_named(components(path)) {
        Some(name) => if name == parent_dir() {
            None
        } else {
            Some(name)
        },
        None => None,
    }
}

/// A text that can serve as a file name inside a directory: it is not empty,
/// holds no separator, and is neither `.` nor `..`.
pub open spec fn is_plain_name(name: Seq<char>) -> bool {
    &&& name.len() > 0
    &&& forall|i: int| 0 <= i < name.len() ==> name[i] != '/'
    &&& name != current_dir()
    &&& name != parent_dir()
}

/// The ten decimal digits, in order of their value.
pub open spec fn digits() -> Seq<char> {
    seq!['0', '1', '2', '3', '4', '5', '6', '7', '8', '9']
}

/// The decimal notation of `n`, without leading zeros.
pub open spec fn decimal(n: nat) -> Seq<char>
    decreases n,
{
    if n < 10 {
        seq![digits()[n as int]]
    } else {
        decimal(n / 10).push(digits()[(n % 10) as int])
    }
}

/// The base name given to the file of a request that names no file.
pub open spec fn default_base_name() -> Seq<char> {
    "snippet.rs"@
}

/// The temporary file name made of `token` and `base`.
pub open spec fn temp_name(token: u64, base: Seq<char>) -> Seq<char> {
    decimal(token as nat) + seq!['-'] + base
}

/// The temporary file name for a request, or `None` where the file that the
/// request names has no base name.
pub open spec fn temp_name_for(file_identifier: Option<Seq<char>>, token: u64) -> Option<
    Seq<char>,
> {
    match file_identifier {
        None => Some(temp_name(token, default_base_name())),
        Some(path) => match base_name(path) {
            Some(base) => Some(temp_name(token, base)),
            None => None,
        },
    }
}

/// No separator stands after the last separator, which itself is one.
pub proof fn lemma_last_separator(path: Seq<char>)
    ensures
        -1 <= last_separator(path) < path.len(),
        last_separator(path) >= 0 ==> path[last_separator(path)] == '/',
        forall|j: int| last_separator(path) < j < path.len() ==> path[j] != '/',
    decreases path.len(),
{
    if path.len() > 0 && path.last() != '/' {
        let front = path.drop_last();
        lemma_last_separator(front);
        assert forall|j: int| last_separator(path) < j < path.len() implies path[j] != '/' by {
            if j < front.len() {
                assert(front[j] == path[j]);
            }
        }
    }
}

/// A position that holds a separator, or `-1`, with no separator after it,
/// is the last separator.
pub proof fn lemma_last_separator_is(path: Seq<char>, k: int)
    requires
        -1 <= k < path.len(),
        k >= 0 ==> path[k] == '/',
        forall|j: int| k < j < path.len() ==> path[j] != '/',
    ensures
        last_separator(path) == k,
    decreases path.len(),
{
    if path.len() > 0 && k < path.len() - 1 {
        lemma_last_separator_is(path.drop_last(), k);
    }
}

/// No component holds a separator.
pub proof fn lemma_components_plain(path: Seq<char>)
    ensures
        forall|i: int, j: int|
            0 <= i < components(path).len() && 0 <= j < components(path)[i].len()
                ==> #[trigger] components(path)[i][j] != '/',
    decreases path.len(),
{
    let k = last_separator(path);
    let parts = components(path);
    lemma_last_separator(path);
    if 0 <= k < path.len() {
        let front = components(path.take(k));
        let tail = path.skip(k + 1);
        lemma_components_plain(path.take(k));
        assert forall|i: int, j: int| 0 <= i < parts.len() && 0 <= j < parts[i].len() implies
            #[trigger] parts[i][j] != '/' by {
            if i < front.len() {
                assert(parts[i] == front[i]);
                assert(front[i][j] != '/');
            } else {
                assert(parts[i] == tail);
                assert(tail[j] == path[k + 1 + j]);
            }
        }
    } else {
        assert forall|i: int, j: int| 0 <= i < parts.len() && 0 <= j < parts[i].len() implies
            #[trigger] parts[i][j] != '/' by {
            assert(parts[i] == path);
        }
    }
}

/// What `last_named` picks is one of the parts, and is named.
pub proof fn lemma_last_named(parts: Seq<Seq<char>>)
    ensures
        last_named(parts) matches Some(name) ==> is_named(name) && exists|i: int|
            0 <= i < parts.len() && parts[i] == name,
    decreases parts.len(),
{
    if parts.len() > 0 && !is_named(parts.last()) {
        lemma_last_named(parts.drop_last());
        if last_named(parts) is Some {
            let i = choose|i: int|
                0 <= i < parts.drop_last().len() && parts.drop_last()[i] == last_named(
                    parts,
                )->0;
            assert(parts[i] == last_named(parts)->0);
        }
    } else if parts.len() > 0 {
        assert(parts[parts.len() - 1] == parts.last());
    }
}

/// A base name can serve as a file name inside a directory.
pub proof fn lemma_base_name_plain(path: Seq<char>)
    ensures
        base_name(path) matches Some(name) ==> is_plain_name(name),
{
    lemma_last_named(components(path));
    lemma_components_plain(path);
}

/// Each digit is the character that lies its value after `'0'`.
pub proof fn lemma_digit_code(d: nat)
    requires
        d < 10,
    ensures
        digits()[d as int] as u32 == '0' as u32 + d,
{
    let all = digits();
    assert(all[0] == '0' && all[1] == '1' && all[2] == '2' && all[3] == '3' && all[4] == '4');
    assert(all[5] == '5' && all[6] == '6' && all[7] == '7' && all[8] == '8' && all[9] == '9');
}

/// The decimal notation of a number is not empty and holds digits only.
pub proof fn lemma_decimal_digits(n: nat)
    ensures
        decimal(n).len() >= 1,
        n >= 10 ==> decimal(n).len() >= 2,
        forall|i: int| 0 <= i < decimal(n).len() ==> '0' <= #[trigger] decimal(n)[i] <= '9',
    decreases n,
{
    if n >= 10 {
        lemma_decimal_digits(n / 10);
        lemma_digit_code(n % 10);
    } else {
        lemma_digit_code(n);
    }
}

/// Different numbers have different decimal notations.
pub proof fn lemma_decimal_injective(a: nat, b: nat)
    requires
        decimal(a) == decimal(b),
    ensures
        a == b,
    decreases a,
{
    lemma_decimal_digits(a);
    lemma_decimal_digits(b);
    if a >= 10 && b >= 10 {
        let da = decimal(a / 10);
        let db = decimal(b / 10);
        let xa = digits()[(a % 10) as int];
        let xb = digits()[(b % 10) as int];
        assert(da.push(xa).drop_last() == da);
        assert(db.push(xb).drop_last() == db);
        assert(da.push(xa).last() == xa);
        assert(db.push(xb).last() == xb);
        lemma_decimal_injective(a / 10, b / 10);
        lemma_digit_code(a % 10);
        lemma_digit_code(b % 10);
        assert(a / 10 == b / 10 && a % 10 == b % 10);
    } else if a < 10 && b < 10 {
        assert(decimal(a)[0] == digits()[a as int]);
        assert(decimal(b)[0] == digits()[b as int]);
        lemma_digit_code(a);
        lemma_digit_code(b);
    } else if a < 10 {
        assert(decimal(a).len() == 1);
    } else {
        assert(decimal(b).len() == 1);
    }
}

/// A temporary file name determines the token and the base name that it was
/// made of: requests with different tokens, or with different base names,
/// get different files.
pub proof fn lemma_temp_name_injective(t1: u64, base1: Seq<char>, t2: u64, base2: Seq<char>)
    requires
        temp_name(t1, base1) == temp_name(t2, base2),
    ensures
        t1 == t2,
        base1 == base2,
{
    let d1 = decimal(t1 as nat);
    let d2 = decimal(t2 as nat);
    let n1 = temp_name(t1, base1);
    let n2 = temp_name(t2, base2);
    lemma_decimal_digits(t1 as nat);
    lemma_decimal_digits(t2 as nat);
    if d1.len() < d2.len() {
        assert(n1[d1.len() as int] == '-');
        assert(n2[d1.len() as int] == d2[d1.len() as int]);
    } else if d2.len() < d1.len() {
        assert(n2[d2.len() as int] == '-');
        assert(n1[d2.len() as int] == d1[d2.len() as int]);
    } else {
        assert(d1 == n1.take(d1.len() as int));
        assert(d2 == n2.take(d2.len() as int));
        lemma_decimal_injective(t1 as nat, t2 as nat);
        assert(base1 == n1.skip(d1.len() as int + 1));
        assert(base2 == n2.skip(d2.len() as int + 1));
    }
}

/// A temporary file name made of a plain base name holds no separator.
pub proof fn lemma_temp_name_plain(token: u64, base: Seq<char>)
    requires
        is_plain_name(base),
    ensures
        is_plain_name(temp_name(token, base)),
{
    let d = decimal(token as nat);
    let name = temp_name(token, base);
    lemma_decimal_digits(token as nat);
    assert forall|i: int| 0 <= i < name.len() implies name[i] != '/' by {
        if i < d.len() {
            assert(name[i] == d[i]);
        } else if i > d.len() {
            assert(name[i] == base[i - d.len() - 1]);
        }
    }
    assert(name[d.len() as int] == '-');
    assert(name.len() >= 3);
}

/// The temporary file name of any request can serve as a file name inside a
/// directory: joined to the directory for temporary files, it names a file
/// directly in it.
pub proof fn lemma_temp_file_name_plain(file_identifier: Option<Seq<char>>, token: u64)
    ensures
        temp_name_for(file_identifier, token) matches Some(name) ==> is_plain_name(name),
{
    match file_identifier {
        None => {
            reveal_strlit("snippet.rs");
            assert(default_base_name()[0] != '.');
            lemma_temp_name_plain(token, default_base_name());
        },
        Some(path) => {
            lemma_base_name_plain(path);
            if base_name(path) is Some {
                lemma_temp_name_plain(token, base_name(path)->0);
            }
        },
    }
}

/// Requests with different tokens never share a temporary file, whatever
/// files they name.
pub proof fn lemma_tokens_keep_files_apart(
    first: Option<Seq<char>>,
    first_token: u64,
    second: Option<Seq<char>>,
    second_token: u64,
)
    requires
        first_token != second_token,
        temp_name_for(first, first_token) is Some,
        temp_name_for(second, second_token) is Some,
    ensures
        temp_name_for(first, first_token) != temp_name_for(second, second_token),
{
    let base1 = match first {
        Some(path) => base_name(path)->0,
        None => default_base_name(),
    };
    let base2 = match second {
        Some(path) => base_name(path)->0,
        None => default_base_name(),
    };
    if temp_name(first_token, base1) == temp_name(second_token, base2) {
        lemma_temp_name_injective(first_token, base1, second_token, base2);
    }
}

/// The token with serial number `serial` of the process `process`.
pub open spec fn token_of(process: u32, serial: u32) -> u64 {
    (process as u64 * 0x1_0000_0000 + serial as u64) as u64
}

/// A token determines the process and the serial number that it was made of:
/// no two processes that run at the same time, and no two requests of one
/// process, get the same token.
pub proof fn lemma_token_injective(
    first_process: u32,
    first_serial: u32,
    second_process: u32,
    second_serial: u32,
)
    requires
        token_of(first_process, first_serial) == token_of(second_process, second_serial),
    ensures
        first_process == second_process,
        first_serial == second_serial,
{
    assert(first_process as u64 * 0x1_0000_0000 + first_serial as u64 <= u64::MAX);
    assert(second_process as u64 * 0x1_0000_0000 + second_serial as u64 <= u64::MAX);
}

/// Hands out the tokens of one process's requests: each one once, with
/// increasing serial numbers.
#[derive(Debug, PartialEq, Eq)]
pub struct TokenSource {
    process: u32,
    issued: u32,
}

/// The mathematical content of a [`TokenSource`].
pub struct TokenSourceView {
    /// The number of the process that the source belongs to.
    pub process: u32,
    /// How many tokens the source has handed out.
    pub issued: u32,
}

impl View for TokenSource {
    type V = TokenSourceView;

    closed spec fn view(&self) -> TokenSourceView {
        TokenSourceView { process: self.process, issued: self.issued }
    }
}

impl TokenSource {
    /// A source for the process with the number `process` that has handed
    /// out no token yet.
    pub fn new(process: u32) -> (source: TokenSource)
        ensures
            source@ == (TokenSourceView { process, issued: 0 }),
    {
        TokenSource { process, issued: 0 }
    }

    /// Hands out the next token. Returns `None`, and changes nothing, once
    /// the serial numbers are used up.
    pub fn issue(&mut self) -> (token: Option<u64>)
        ensures
            old(self)@.issued < u32::MAX ==> token == Some(
                token_of(old(self)@.process, old(self)@.issued),
            ) && final(self)@ == (TokenSourceView {
                process: old(self)@.process,
                issued: (old(self)@.issued + 1) as u32,
            }),
            old(self)@.issued == u32::MAX ==> token is None && final(self)@ == old(self)@,
    {
        if self.issued < u32::MAX {
            let token = self.process as u64 * 0x1_0000_0000 + self.issued as u64;
            self.issued = self.issued + 1;
            Some(token)
        } else {
            None
        }
    }
}

/// Finds the base name of `path`, the name of the file or directory that
/// it ends in. Trailing separators and `.` components are passed over.
pub fn file_base_name(path: &str) -> (name: Option<String>)
    ensures
        name.deep_view() == base_name(path@),
{
    let chars = chars_of(path);
    let s = chars.as_slice();
    let mut end: usize = s.len();
    proof {
        assert(path@.take(end as int) == path@);
    }
    loop
        invariant
            s@ == path@,
            end <= s@.len(),
            last_named(components(path@)) == last_named(components(path@.take(end as int))),
        decreases end,
    {
        let mut start: usize = end;
        while start > 0 && s[start - 1] != '/'
            invariant
                start <= end <= s@.len(),
                forall|j: int| start <= j < end ==> s@[j] != '/',
            decreases start,
        {
            start -= 1;
        }
        let part = slice_of(s, (start, end));
        let ghost front = path@.take(end as int);
        proof {
            lemma_last_separator_is(front, start - 1);
            assert(part@ == front.skip(start as int));
            if start > 0 {
                assert(components(front) == components(front.take(start - 1)).push(part@));
                assert(components(front).drop_last() == components(front.take(start - 1)));
                assert(front.take(start - 1) == path@.take(start - 1));
            } else {
                assert(part@ == front);
                assert(components(front) == seq![front]);
                assert(components(front).drop_last() == Seq::<Seq<char>>::empty());
            }
            assert(components(front).last() == part@);
        }
        let is_current = part.len() == 1 && part[0] == '.';
        proof {
            if is_current {
                assert(part@ == current_dir());
            } else if part@.len() == 1 {
                assert(part@[0] != current_dir()[0]);
            }
        }
        if part.len() > 0 && !is_current {
            let is_parent = part.len() == 2 && part[0] == '.' && part[1] == '.';
            proof {
                if is_parent {
                    assert(part@ == parent_dir());
                } else if part@.len() == 2 {
                    assert(part@[0] != parent_dir()[0] || part@[1] != parent_dir()[1]);
                }
            }
            if is_parent {
                return None;
            }
            return Some(string_of(part));
        }
        proof {
            assert(!is_named(part@));
            assert(last_named(components(front)) == last_named(components(front).drop_last()));
            if start == 0 {
                assert(last_named(components(front).drop_last()) is None);
            }
        }
        if start == 0 {
            return None;
        }
        end = start - 1;
    }
}

/// The character that stands for the digit `d`.
fn digit(d: u64) -> (c: char)
    requires
        d < 10,
    ensures
        c == digits()[d as int],
{
    match d {
        0 => '0',
        1 => '1',
        2 => '2',
        3 => '3',
        4 => '4',
        5 => '5',
        6 => '6',
        7 => '7',
        8 => '8',
        _ => '9',
    }
}

/// Appends the decimal notation of `n` to `s`.
pub fn push_decimal(s: &mut String, n: u64)
    ensures
        final(s)@ == old(s)@ + decimal(n as nat),
    decreases n,
{
    if n >= 10 {
        push_decimal(s, n / 10);
    }
    s.push(digit(n % 10));
    proof {
        let d = digits()[(n % 10) as int];
        if n >= 10 {
            assert((old(s)@ + decimal((n / 10) as nat)).push(d) == old(s)@ + decimal(
                (n / 10) as nat,
            ).push(d));
        } else {
            assert(old(s)@.push(d) == old(s)@ + seq![d]);
        }
    }
}

/// Makes the name of the temporary file for a request from the file that the
/// request names, if it names one, and the request's token. Returns `None`
/// where the named file has no base name, as with a path that ends in `..`.
pub fn temp_file_name(file_identifier: Option<&str>, token: u64) -> (name: Option<String>)
    ensures
        name.deep_view() == temp_name_for(file_identifier.deep_view(), token),
{
    let base = match file_identifier {
        None => String::from_str("snippet.rs"),
        Some(path) => match file_base_name(path) {
            Some(base) => base,
            None => {
                return None;
            },
        },
    };
    let mut name = String::new();
    push_decimal(&mut name, token);
    name.push('-');
    name.append(base.as_str());
    proof {
        assert(name@ == temp_name(token, base@));
    }
    Some(name)
}

} // verus!

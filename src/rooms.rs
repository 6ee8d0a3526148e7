use vstd::prelude::*;

use std::collections::HashMap;

verus! {

broadcast use vstd::std_specs::hash::group_hash_axioms;

/// Number of characters in a room code.
pub const CODE_LEN: usize = 6;

pub open spec fn is_ascii_alphanumeric(c: char) -> bool {
    ('a' <= c && c <= 'z') || ('A' <= c && c <= 'Z') || ('0' <= c && c <= '9')
}

/// A character that a room code may hold: an upper-case letter or a digit.
pub open spec fn is_code_char(c: char) -> bool {
    ('A' <= c && c <= 'Z') || ('0' <= c && c <= '9')
}

/// Six upper-case letters or digits.
pub open spec fn is_room_code(s: Seq<char>) -> bool {
    s.len() == CODE_LEN && forall|i: int| 0 <= i < s.len() ==> #[trigger] is_code_char(s[i])
}

/// `c` with an ASCII lower-case letter raised to upper case.
pub open spec fn ascii_upper(c: char) -> char {
    if 'a' <= c && c <= 'z' {
        (c as int - 32) as char
    } else {
        c
    }
}

/// Value of a code character as a base-36 digit.
pub open spec fn code_digit(c: char) -> int {
    if '0' <= c && c <= '9' {
        c as int - '0' as int
    } else {
        c as int - 'A' as int + 10
    }
}

/// A room code read as a number in base 36, its first character the most
/// significant digit.
pub open spec fn code_value(s: Seq<char>) -> int
    decreases s.len(),
{
    if s.len() == 0 {
        0
    } else {
        code_value(s.drop_last()) * 36 + code_digit(s.last())
    }
}

/// What `str::trim` leaves of a line.
pub uninterp spec fn trimmed(s: Seq<char>) -> Seq<char>;

/// Relies on rand's `Alphanumeric` through `DistString::sample_string` with
/// `thread_rng()`: `len` characters, each from `A-Z`, `a-z` or `0-9`.
#[verifier::external_body]
fn sample_alphanumeric(len: usize) -> (r: String)
    ensures
        r@.len() == len,
        forall|i: int| 0 <= i < len ==> #[trigger] is_ascii_alphanumeric(r@[i]),
{
    rand::distributions::DistString::sample_string(
        &rand::distributions::Alphanumeric,
        &mut rand::thread_rng(),
        len,
    )
}

/// Relies on `str::to_ascii_uppercase`: each ASCII lower-case letter is
/// raised, every other character kept.
#[verifier::external_body]
fn to_ascii_uppercase(s: &str) -> (r: String)
    ensures
        r@.len() == s@.len(),
        forall|i: int| 0 <= i < s@.len() ==> #[trigger] r@[i] == ascii_upper(s@[i]),
{
    s.to_ascii_uppercase()
}

/// Relies on `str::trim`: the line without leading and trailing whitespace.
#[verifier::external_body]
fn trim(s: &str) -> (r: &str)
    ensures
        r@ == trimmed(s@),
{
    s.trim()
}

proof fn lemma_code_value_step(s: Seq<char>, i: int)
    requires
        0 <= i < s.len(),
    ensures
        code_value(s.subrange(0, i + 1)) == code_value(s.subrange(0, i)) * 36 + code_digit(s[i]),
{
    assert(s.subrange(0, i + 1).drop_last() =~= s.subrange(0, i));
}

/// The number under which a room code is filed, if `code` is one.
pub fn code_key(code: &str) -> (r: Option<u64>)
    ensures
        r is Some <==> is_room_code(code@),
        r is Some ==> r->Some_0 as int == code_value(code@),
{
    let n = code.unicode_len();
    if n != CODE_LEN {
        return None;
    }
    let mut v: u64 = 0;
    let mut i: usize = 0;
    while i < n
        invariant
            n == code@.len() == CODE_LEN,
            i <= n,
            v as int == code_value(code@.subrange(0, i as int)),
            v < pow36(i as nat),
            forall|j: int| 0 <= j < i ==> #[trigger] is_code_char(code@[j]),
        decreases n - i,
    {
        let c = code.get_char(i);
        let d: u64 = if '0' <= c && c <= '9' {
            (c as u64) - ('0' as u64)
        } else if 'A' <= c && c <= 'Z' {
            (c as u64) - ('A' as u64) + 10
        } else {
            assert(!is_code_char(code@[i as int]));
            return None;
        };
        proof {
            lemma_code_value_step(code@, i as int);
            lemma_pow36_bound(i as nat);
            let p = pow36(i as nat);
            assert(v * 36 + d < p * 36) by (nonlinear_arith)
                requires
                    v < p,
                    d < 36,
            ;
        }
        v = v * 36 + d;
        i = i + 1;
    }
    assert(code@.subrange(0, n as int) =~= code@);
    Some(v)
}

pub open spec fn pow36(e: nat) -> int
    decreases e,
{
    if e == 0 {
        1
    } else {
        36 * pow36((e - 1) as nat)
    }
}

proof fn lemma_pow36_bound(e: nat)
    requires
        e < CODE_LEN,
    ensures
        pow36(e + 1) <= 2176782336,
        pow36(e + 1) == pow36(e) * 36,
{
    reveal_with_fuel(pow36, 7);
}

proof fn lemma_code_value_range(s: Seq<char>)
    requires
        forall|i: int| 0 <= i < s.len() ==> #[trigger] is_code_char(s[i]),
    ensures
        0 <= code_value(s) < pow36(s.len()),
    decreases s.len(),
{
    if s.len() > 0 {
        let p = s.drop_last();
        assert forall|i: int| 0 <= i < p.len() implies #[trigger] is_code_char(p[i]) by {
            assert(is_code_char(s[i]));
        }
        lemma_code_value_range(p);
        assert(is_code_char(s[s.len() - 1]));
        let v = code_value(p);
        let d = code_digit(s.last());
        let q = pow36(p.len());
        assert(0 <= v * 36 + d < q * 36) by (nonlinear_arith)
            requires
                0 <= v < q,
                0 <= d < 36,
        ;
    }
}

proof fn lemma_code_value_injective(a: Seq<char>, b: Seq<char>)
    requires
        a.len() == b.len(),
        forall|i: int| 0 <= i < a.len() ==> #[trigger] is_code_char(a[i]),
        forall|i: int| 0 <= i < b.len() ==> #[trigger] is_code_char(b[i]),
        code_value(a) == code_value(b),
    ensures
        a == b,
    decreases a.len(),
{
    if a.len() > 0 {
        let pa = a.drop_last();
        let pb = b.drop_last();
        assert forall|i: int| 0 <= i < pa.len() implies #[trigger] is_code_char(pa[i]) by {
            assert(is_code_char(a[i]));
        }
        assert forall|i: int| 0 <= i < pb.len() implies #[trigger] is_code_char(pb[i]) by {
            assert(is_code_char(b[i]));
        }
        lemma_code_value_range(pa);
        lemma_code_value_range(pb);
        assert(is_code_char(a[a.len() - 1]) && is_code_char(b[b.len() - 1]));
        let va = code_value(pa);
        let vb = code_value(pb);
        let da = code_digit(a.last());
        let db = code_digit(b.last());
        assert(va == vb && da == db) by (nonlinear_arith)
            requires
                va * 36 + da == vb * 36 + db,
                0 <= va,
                0 <= vb,
                0 <= da < 36,
                0 <= db < 36,
        ;
        lemma_code_value_injective(pa, pb);
        assert(a.last() == b.last());
        assert(a =~= pa.push(a.last()));
        assert(b =~= pb.push(b.last()));
    }
}

/// Distinct room codes are filed under distinct numbers, so a room is only
/// ever reached by its own code.
pub proof fn lemma_room_key_injective(a: Seq<char>, b: Seq<char>)
    requires
        is_room_code(a),
        is_room_code(b),
        room_key(a) == room_key(b),
    ensures
        a == b,
{
    lemma_code_value_range(a);
    lemma_code_value_range(b);
    assert(pow36(6) == 2176782336) by {
        reveal_with_fuel(pow36, 7);
    }
    lemma_code_value_injective(a, b);
}

/// Raises a sample of ASCII letters and digits to a room code.
pub fn code_from_sample(sample: &str) -> (r: String)
    requires
        sample@.len() == CODE_LEN,
        forall|i: int| 0 <= i < sample@.len() ==> #[trigger] is_ascii_alphanumeric(sample@[i]),
    ensures
        is_room_code(r@),
        forall|i: int| 0 <= i < CODE_LEN ==> #[trigger] r@[i] == ascii_upper(sample@[i]),
{
    let r = to_ascii_uppercase(sample);
    assert forall|i: int| 0 <= i < r@.len() implies #[trigger] is_code_char(r@[i]) by {
        assert(is_ascii_alphanumeric(sample@[i]));
    }
    r
}

/// Rooms whose creator waits for an opponent, each holding the slot through
/// which the opponent's connection reaches it, filed by room code.
pub struct Registry<T> {
    rooms: HashMap<u64, T>,
}

impl<T> View for Registry<T> {
    type V = Map<u64, T>;

    closed spec fn view(&self) -> Map<u64, T> {
        self.rooms@
    }
}

/// Number under which the room code `s` is filed.
pub open spec fn room_key(s: Seq<char>) -> u64 {
    code_value(s) as u64
}

impl<T> Registry<T> {
    /// A registry with no pending room.
    pub fn new() -> (r: Self)
        ensures
            r@ == Map::<u64, T>::empty(),
    {
        Registry { rooms: HashMap::new() }
    }

    /// Files `slot` under `code`, replacing any room pending under the same
    /// code; a string that is not a room code is refused and nothing changes.
    pub fn open_room(&mut self, code: &str, slot: T) -> (r: bool)
        ensures
            r == is_room_code(code@),
            r ==> final(self)@ == old(self)@.insert(room_key(code@), slot),
            !r ==> final(self)@ == old(self)@,
    {
        match code_key(code) {
            Some(key) => {
                self.rooms.insert(key, slot);
                true
            },
            None => false,
        }
    }

    /// Opens a room under a fresh random code and returns the code.
    pub fn create_room(&mut self, slot: T) -> (code: String)
        ensures
            is_room_code(code@),
            final(self)@ == old(self)@.insert(room_key(code@), slot),
    {
        let sample = sample_alphanumeric(CODE_LEN);
        let code = code_from_sample(sample.as_str());
        self.open_room(code.as_str(), slot);
        code
    }

    /// Whether a room is pending under `code`.
    pub fn contains(&self, code: &str) -> (r: bool)
        ensures
            r == (is_room_code(code@) && self@.contains_key(room_key(code@))),
    {
        match code_key(code) {
            Some(key) => self.rooms.contains_key(&key),
            None => false,
        }
    }

    /// Takes the room pending under `code` out of the registry and hands
    /// back its slot; `None` if no room is pending under that code.
    pub fn claim(&mut self, code: &str) -> (r: Option<T>)
        ensures
            claimed(old(self)@, final(self)@, code@, r),
    {
        match code_key(code) {
            Some(key) => {
                let r = self.rooms.remove(&key);
                proof {
                    assert(key == room_key(code@));
                    if old(self)@.contains_key(key) {
                        assert(self@ =~= old(self)@.remove(key));
                    } else {
                        assert(self@ =~= old(self)@);
                    }
                }
                r
            },
            None => None,
        }
    }

    /// Claims the room named by a line that a joining player typed, without
    /// its surrounding whitespace.
    pub fn claim_line(&mut self, line: &str) -> (r: Option<T>)
        ensures
            claimed(old(self)@, final(self)@, trimmed(line@), r),
    {
        let code = trim(line);
        self.claim(code)
    }
}

/// Whether a room is pending under `code` in `rooms`.
pub open spec fn pending<T>(rooms: Map<u64, T>, code: Seq<char>) -> bool {
    is_room_code(code) && rooms.contains_key(room_key(code))
}

/// A claim of `code` that turned `before` into `after` and returned `r`:
/// the pending room leaves and its slot comes back, or, with none pending,
/// nothing changes and nothing comes back.
pub open spec fn claimed<T>(before: Map<u64, T>, after: Map<u64, T>, code: Seq<char>, r: Option<T>) -> bool {
    if pending(before, code) {
        r == Some(before[room_key(code)]) && after == before.remove(room_key(code))
    } else {
        r is None && after == before
    }
}

/// Claims of one code, one after another (as the registry's lock orders
/// them): only the first can succeed, and it does exactly when a room was
/// pending under the code; every later one finds nothing.
pub proof fn lemma_one_claim_wins<T>(states: Seq<Map<u64, T>>, results: Seq<Option<T>>, code: Seq<char>)
    requires
        states.len() == results.len() + 1,
        forall|i: int|
            0 <= i < results.len() ==> claimed(states[i], states[i + 1], code, #[trigger] results[i]),
    ensures
        results.len() > 0 ==> (results[0] is Some <==> pending(states[0], code)),
        forall|i: int| 1 <= i < results.len() ==> #[trigger] results[i] is None,
    decreases results.len(),
{
    if results.len() > 1 {
        let rest = results.drop_last();
        let before = states.drop_last();
        assert forall|i: int| 0 <= i < rest.len() implies claimed(
            before[i],
            before[i + 1],
            code,
            #[trigger] rest[i],
        ) by {
            assert(results[i] == rest[i]);
        }
        lemma_one_claim_wins(before, rest, code);
        let n = results.len() - 1;
        assert(claimed(states[n], states[n + 1], code, results[n]));
        assert(!pending(states[n], code)) by {
            let prev = results[n - 1];
            assert(states[(n - 1) + 1] == states[n]);
            if pending(states[n - 1], code) {
                assert(!states[n].contains_key(room_key(code)));
            }
        }
        assert forall|i: int| 1 <= i < results.len() implies #[trigger] results[i] is None by {
            if i < n {
                assert(rest[i] is None);
            }
        }
    } else if results.len() == 1 {
        let only = results[0];
    }
}

/// Opening a room and then claiming its code twice: the first claim hands
/// back the slot, the second finds nothing, and the registry is left as it
/// was before the room opened, less any room that the new one replaced.
pub proof fn lemma_create_then_join<T>(
    m0: Map<u64, T>,
    m1: Map<u64, T>,
    m2: Map<u64, T>,
    m3: Map<u64, T>,
    code: Seq<char>,
    slot: T,
    first: Option<T>,
    second: Option<T>,
)
    requires
        is_room_code(code),
        m1 == m0.insert(room_key(code), slot),
        claimed(m1, m2, code, first),
        claimed(m2, m3, code, second),
    ensures
        first == Some(slot),
        second is None,
        m3 == m0.remove(room_key(code)),
{
    assert(m2 =~= m0.remove(room_key(code)));
}

/// A claim of another code leaves a pending room, and its slot, in place.
pub proof fn lemma_other_claim_keeps_room<T>(
    before: Map<u64, T>,
    after: Map<u64, T>,
    code: Seq<char>,
    other: Seq<char>,
    r: Option<T>,
)
    requires
        pending(before, code),
        claimed(before, after, other, r),
        other != code,
    ensures
        pending(after, code),
        after[room_key(code)] == before[room_key(code)],
{
    if pending(before, other) {
        if room_key(other) == room_key(code) {
            lemma_room_key_injective(other, code);
        }
    }
}

} // verus!

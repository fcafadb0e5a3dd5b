//! Commands from the hotkey listener to the engine, the status that the
//! control loop folds its steps into, the countdown label of the player, and
//! the lookup of a sound effect by a typed query.
use vstd::prelude::*;
use vstd::string::StrSliceExecFns;

verus! {

/// A command for the engine, as a hotkey delivers it.
#[derive(Clone, Copy, Debug, PartialEq, Eq, Structural)]
pub enum Action {
    SearchAndPlay,
    SkipToPart,
    StopSfx,
    ToggleShitMic,
    /// Apply the configured filter preset at this index to the microphone.
    FilterPreset(usize),
    Idle,
}

/// The single pending command: a newer command replaces one not yet taken.
pub struct ActionSlot {
    pending: Action,
}

impl ActionSlot {
    pub closed spec fn view(&self) -> Action {
        self.pending
    }

    /// A slot with nothing pending.
    pub fn new() -> (r: ActionSlot)
        ensures
            r@ == Action::Idle,
    {
        ActionSlot { pending: Action::Idle }
    }

    /// Leaves `a` pending, in place of whatever was.
    pub fn post(&mut self, a: Action)
        ensures
            final(self)@ == a,
    {
        self.pending = a;
    }

    /// Takes the pending command out, leaving nothing pending.
    pub fn take(&mut self) -> (r: Action)
        ensures
            r == old(self)@,
            final(self)@ == Action::Idle,
    {
        let r = self.pending;
        self.pending = Action::Idle;
        r
    }
}

/// What a step of the control loop asks of the screen, from least to most
/// pressing.
#[derive(Clone, Copy, Debug, PartialEq, Eq, Structural)]
pub enum StateStatus {
    Unaffected,
    IdleRender,
    Updated,
    IgnoreNextKeyPress,
    Quit,
}

pub open spec fn urgency(s: StateStatus) -> int {
    match s {
        StateStatus::Unaffected => 0,
        StateStatus::IdleRender => 1,
        StateStatus::Updated => 2,
        StateStatus::IgnoreNextKeyPress => 3,
        StateStatus::Quit => 4,
    }
}

/// The more pressing of two statuses.
pub open spec fn merged(a: StateStatus, b: StateStatus) -> StateStatus {
    if urgency(b) > urgency(a) { b } else { a }
}

impl StateStatus {
    /// Folds `rhs` in: the status becomes the more pressing of the two, so a
    /// later, milder status never hides an earlier `Quit`.
    pub fn merge(&mut self, rhs: StateStatus)
        ensures
            *final(self) == merged(*old(self), rhs),
    {
        match rhs {
            StateStatus::Unaffected => {},
            StateStatus::IdleRender => {
                if *self == StateStatus::Unaffected {
                    *self = StateStatus::IdleRender;
                }
            },
            StateStatus::Updated => {
                if *self == StateStatus::Unaffected || *self == StateStatus::IdleRender {
                    *self = StateStatus::Updated;
                }
            },
            StateStatus::IgnoreNextKeyPress => {
                if *self != StateStatus::Quit {
                    *self = StateStatus::IgnoreNextKeyPress;
                }
            },
            StateStatus::Quit => *self = StateStatus::Quit,
        }
    }
}

impl std::ops::BitOrAssign for StateStatus {
    fn bitor_assign(&mut self, rhs: StateStatus) {
        self.merge(rhs);
    }
}

/// The decimal digit for `d`.
pub open spec fn digit_char(d: int) -> char {
    if d == 0 { '0' }
    else if d == 1 { '1' }
    else if d == 2 { '2' }
    else if d == 3 { '3' }
    else if d == 4 { '4' }
    else if d == 5 { '5' }
    else if d == 6 { '6' }
    else if d == 7 { '7' }
    else if d == 8 { '8' }
    else { '9' }
}

/// The decimal numeral of `n`, without leading zeros.
pub open spec fn decimal(n: nat) -> Seq<char>
    decreases n,
{
    if n < 10 {
        seq![digit_char(n as int)]
    } else {
        decimal(n / 10).push(digit_char((n % 10) as int))
    }
}

/// The countdown label: the seconds, an `s`, and padding to four columns
/// for numerals shorter than three digits.
pub open spec fn time_label(secs: nat) -> Seq<char> {
    let d = decimal(secs);
    let pad = if d.len() == 1 {
        seq![' ', ' ']
    } else if d.len() == 2 {
        seq![' ']
    } else {
        Seq::<char>::empty()
    };
    d + seq!['s'] + pad
}

fn digit_str(d: u64) -> (r: &'static str)
    requires
        d < 10,
    ensures
        r@ == seq![digit_char(d as int)],
{
    proof {
        reveal_strlit("0");
        reveal_strlit("1");
        reveal_strlit("2");
        reveal_strlit("3");
        reveal_strlit("4");
        reveal_strlit("5");
        reveal_strlit("6");
        reveal_strlit("7");
        reveal_strlit("8");
        reveal_strlit("9");
    }
    if d == 0 { "0" }
    else if d == 1 { "1" }
    else if d == 2 { "2" }
    else if d == 3 { "3" }
    else if d == 4 { "4" }
    else if d == 5 { "5" }
    else if d == 6 { "6" }
    else if d == 7 { "7" }
    else if d == 8 { "8" }
    else { "9" }
}

fn push_decimal(s: &mut String, n: u64)
    ensures
        final(s)@ == old(s)@ + decimal(n as nat),
    decreases n,
{
    if n < 10 {
        s.append(digit_str(n));
    } else {
        push_decimal(s, n / 10);
        s.append(digit_str(n % 10));
    }
}

/// The label shown for `secs` seconds of playback left.
pub fn format_time_left(secs: u64) -> (r: String)
    ensures
        r@ == time_label(secs as nat),
{
    let mut r = String::new();
    push_decimal(&mut r, secs);
    let digits = r.unicode_len();
    r.append("s");
    proof {
        reveal_strlit("s");
        reveal_strlit("  ");
        reveal_strlit(" ");
    }
    if digits == 1 {
        r.append("  ");
    } else if digits == 2 {
        r.append(" ");
    }
    proof {
        assert(r@ =~= time_label(secs as nat));
    }
    r
}

/// `c` with ASCII capitals made small; every other character as it is.
pub open spec fn ascii_lower(c: char) -> char {
    if 'A' <= c && c <= 'Z' { ((c as u32) + 32) as char } else { c }
}

pub open spec fn lower_all(s: Seq<char>) -> Seq<char> {
    Seq::new(s.len(), |i: int| ascii_lower(s[i]))
}

/// Whether `needle` occurs in `hay` as a run of consecutive characters.
pub open spec fn occurs_in(needle: Seq<char>, hay: Seq<char>) -> bool {
    exists|k: int| 0 <= k && k + needle.len() <= hay.len() && #[trigger] hay.subrange(k, k + needle.len()) == needle
}

/// Whether the effect name `name` matches the query `query`: the query occurs
/// in the name, ASCII letters compared without regard to case.
pub open spec fn name_matches(name: Seq<char>, query: Seq<char>) -> bool {
    occurs_in(lower_all(query), lower_all(name))
}

fn lower_char(c: char) -> (r: char)
    ensures
        r == ascii_lower(c),
{
    if 'A' <= c && c <= 'Z' {
        let b = (c as u32 + 32) as u8;
        b as char
    } else {
        c
    }
}

fn lowered(s: &str) -> (r: Vec<char>)
    ensures
        r@ == lower_all(s@),
{
    let n = s.unicode_len();
    let mut r: Vec<char> = Vec::with_capacity(n);
    let mut i: usize = 0;
    while i < n
        invariant
            n == s@.len(),
            i <= n,
            r@.len() == i,
            forall|k: int| 0 <= k < i ==> r@[k] == ascii_lower(s@[k]),
        decreases n - i,
    {
        r.push(lower_char(s.get_char(i)));
        i = i + 1;
    }
    assert(r@ =~= lower_all(s@));
    r
}

fn occurs_at(needle: &Vec<char>, hay: &Vec<char>, k: usize) -> (b: bool)
    requires
        k + needle@.len() <= hay@.len(),
    ensures
        b == (hay@.subrange(k as int, k + needle@.len()) == needle@),
{
    let hay_len = hay.len();
    let mut j: usize = 0;
    while j < needle.len()
        invariant
            k + needle@.len() <= hay@.len(),
            j <= needle@.len(),
            hay_len == hay@.len(),
            forall|t: int| 0 <= t < j ==> hay@[k + t] == needle@[t],
        decreases needle@.len() - j,
    {
        if hay[k + j] != needle[j] {
            assert(hay@.subrange(k as int, k + needle@.len())[j as int] != needle@[j as int]);
            return false;
        }
        j = j + 1;
    }
    assert(hay@.subrange(k as int, k + needle@.len()) =~= needle@);
    true
}

fn occurs(needle: &Vec<char>, hay: &Vec<char>) -> (b: bool)
    ensures
        b == occurs_in(needle@, hay@),
{
    if needle.len() > hay.len() {
        return false;
    }
    let last = hay.len() - needle.len();
    let mut k: usize = 0;
    loop
        invariant
            k <= last,
            last + needle@.len() == hay@.len(),
            forall|t: int| 0 <= t < k ==> #[trigger] hay@.subrange(t, t + needle@.len()) != needle@,
        decreases last - k,
    {
        if occurs_at(needle, hay, k) {
            return true;
        }
        if k == last {
            return false;
        }
        k = k + 1;
    }
}

/// Whether the effect name `name` matches the query `query`.
pub fn name_matches_query(name: &str, query: &str) -> (b: bool)
    ensures
        b == name_matches(name@, query@),
{
    occurs(&lowered(query), &lowered(name))
}

/// The first effect, in list order, whose name matches `query`; `None` when
/// no name does.
pub fn find_matching(names: &Vec<String>, query: &str) -> (r: Option<usize>)
    ensures
        match r {
            Some(i) => i < names@.len() && name_matches(names@[i as int]@, query@) && forall|j: int|
                0 <= j < i ==> !name_matches(#[trigger] names@[j]@, query@),
            None => forall|j: int| 0 <= j < names@.len() ==> !name_matches(#[trigger] names@[j]@, query@),
        },
{
    let q = lowered(query);
    let mut i: usize = 0;
    while i < names.len()
        invariant
            i <= names@.len(),
            q@ == lower_all(query@),
            forall|j: int| 0 <= j < i ==> !name_matches(#[trigger] names@[j]@, query@),
        decreases names@.len() - i,
    {
        let name = lowered(names[i].as_str());
        if occurs(&q, &name) {
            return Some(i);
        }
        i = i + 1;
    }
    None
}

} // verus!

//! Activation tokens: the timestamp seed and the textual token format
//! `<hostname><pid>_TIME<timestamp>`.

use vstd::prelude::*;

verus! {

/// The value the process-wide timestamp seed starts from.
pub const INITIAL_SEED: u32 = 0xDEAD_BEEF;

/// One step of Marsaglia's xorshift32 generator.
pub open spec fn xorshift32(x: u32) -> u32 {
    let a = x ^ (x << 13u32);
    let b = a ^ (a >> 17u32);
    b ^ (b << 5u32)
}

/// The seed after `n` steps from `s`.
pub open spec fn advance(s: u32, n: nat) -> u32
    decreases n,
{
    if n == 0 {
        s
    } else {
        xorshift32(advance(s, (n - 1) as nat))
    }
}

/// The source of the timestamps written into activation tokens.
pub struct TimestampSeed {
    state: u32,
}

impl View for TimestampSeed {
    type V = u32;

    closed spec fn view(&self) -> u32 {
        self.state
    }
}

impl TimestampSeed {
    /// A seed at the fixed initial value.
    pub fn new() -> (r: Self)
        ensures
            r@ == INITIAL_SEED,
    {
        TimestampSeed { state: INITIAL_SEED }
    }

    /// A seed at a chosen value.
    pub fn from_value(state: u32) -> (r: Self)
        ensures
            r@ == state,
    {
        TimestampSeed { state }
    }

    /// The current value, which the next call of `next_timestamp` returns.
    pub fn value(&self) -> (r: u32)
        ensures
            r == self@,
    {
        self.state
    }

    /// Returns the current value and advances the seed by one xorshift32 step.
    pub fn next_timestamp(&mut self) -> (r: u32)
        ensures
            r == old(self)@,
            final(self)@ == xorshift32(old(self)@),
    {
        let seed = self.state;
        let mut x = seed;
        x = x ^ (x << 13u32);
        x = x ^ (x >> 17u32);
        x = x ^ (x << 5u32);
        self.state = x;
        seed
    }
}


/// The decimal digit character of `d`, for `d < 10`.
pub open spec fn digit_char(d: nat) -> char {
    if d == 0 { '0' }
    else if d == 1 { '1' }
    else if d == 2 { '2' }
    else if d == 3 { '3' }
    else if d == 4 { '4' }
    else if d == 5 { '5' }
    else if d == 6 { '6' }
    else if d == 7 { '7' }
    else if d == 8 { '8' }
    else { '9' }
}

/// The decimal representation of `n`, without leading zeros.
pub open spec fn decimal(n: nat) -> Seq<char>
    decreases n,
{
    if n < 10 {
        seq![digit_char(n)]
    } else {
        decimal(n / 10).push(digit_char(n % 10))
    }
}

/// The decimal representation of a signed integer, with a leading `-` when negative.
pub open spec fn signed_decimal(n: int) -> Seq<char> {
    if n < 0 {
        seq!['-'] + decimal((-n) as nat)
    } else {
        decimal(n as nat)
    }
}

/// The literal that separates the process id from the timestamp.
pub open spec fn time_marker() -> Seq<char> {
    seq!['_', 'T', 'I', 'M', 'E']
}

/// The part of a token that precedes the timestamp digits.
pub open spec fn token_prefix(host: Seq<char>, pid: int) -> Seq<char> {
    host + signed_decimal(pid) + time_marker()
}

/// The token `<host><pid>_TIME<time>`.
pub open spec fn token_text(host: Seq<char>, pid: int, time: nat) -> Seq<char> {
    token_prefix(host, pid) + decimal(time)
}

/// Whether `s` holds no NUL character.
pub open spec fn nul_free(s: Seq<char>) -> bool {
    forall|i: int| 0 <= i < s.len() ==> s[i] != '\0'
}

/// The host name written into a token when the node name is not UTF-8.
pub open spec fn fallback_host() -> Seq<char> {
    seq!['w', 'i', 'n', 'i', 't']
}

fn digit_str(d: u64) -> (r: &'static str)
    requires
        d < 10,
    ensures
        r@ == seq![digit_char(d as nat)],
{
    proof {
        reveal_strlit("0");
        reveal_strlit("1");
        reveal_strlit("2");
        reveal_strlit("3");
        reveal_strlit("4");
        reveal_strlit("5");
        reveal_strlit("6");
        reveal_strlit("7");
        reveal_strlit("8");
        reveal_strlit("9");
    }
    match d {
        0 => "0",
        1 => "1",
        2 => "2",
        3 => "3",
        4 => "4",
        5 => "5",
        6 => "6",
        7 => "7",
        8 => "8",
        _ => "9",
    }
}

/// Appends the decimal digits of `n` to `s`.
pub fn push_decimal(s: &mut String, n: u64)
    ensures
        final(s)@ == old(s)@ + decimal(n as nat),
    decreases n,
{
    if n >= 10 {
        push_decimal(s, n / 10);
        s.append(digit_str(n % 10));
        assert(final(s)@ =~= old(s)@ + decimal(n as nat));
    } else {
        s.append(digit_str(n));
    }
}

/// Appends the decimal representation of a signed `n` to `s`.
pub fn push_signed_decimal(s: &mut String, n: i32)
    ensures
        final(s)@ == old(s)@ + signed_decimal(n as int),
{
    if n < 0 {
        proof {
            reveal_strlit("-");
        }
        s.append("-");
        push_decimal(s, (0i64 - n as i64) as u64);
        assert(final(s)@ =~= old(s)@ + signed_decimal(n as int));
    } else {
        push_decimal(s, n as u64);
    }
}

/// Composes the token `<host><pid>_TIME<time>`.
pub fn format_token(host: &str, pid: i32, time: u32) -> (r: String)
    ensures
        r@ == token_text(host@, pid as int, time as nat),
{
    let mut s = host.to_owned();
    push_signed_decimal(&mut s, pid);
    proof {
        reveal_strlit("_TIME");
        assert("_TIME"@ =~= time_marker());
    }
    s.append("_TIME");
    push_decimal(&mut s, time as u64);
    assert(s@ =~= token_text(host@, pid as int, time as nat));
    s
}

/// The host name to write into a token: the node name, or the fixed
/// placeholder when there is none.
pub fn host_or_fallback(node: Option<String>) -> (r: String)
    ensures
        r@ == match node {
            Some(n) => n@,
            None => fallback_host(),
        },
        (node matches Some(n) ==> nul_free(n@)) ==> nul_free(r@),
{
    match node {
        Some(n) => n,
        None => {
            proof {
                reveal_strlit("winit");
                assert("winit"@ =~= fallback_host());
            }
            "winit".to_owned()
        },
    }
}

/// Relies on `rustix::system::uname` and `Uname::nodename`: the host's node
/// name, when it is valid UTF-8. The name is read as a `CStr`, which ends at
/// its first NUL, so it holds none.
#[verifier::external_body]
fn node_name() -> (r: Option<String>)
    ensures
        r matches Some(n) ==> nul_free(n@),
{
    rustix::system::uname().nodename().to_str().ok().map(String::from)
}

/// Relies on `rustix::process::getpid` and `Pid::as_raw_nonzero`: the id of
/// this process, which `getpid` builds through `Pid::from_raw_unchecked`,
/// whose safety condition is a positive value.
#[verifier::external_body]
fn process_id() -> (r: i32)
    ensures
        r > 0,
{
    rustix::process::getpid().as_raw_nonzero().get()
}

/// Builds a fresh activation token from the host name, the process id and the
/// next timestamp of `seed`.
pub fn request_activation_token(seed: &mut TimestampSeed) -> (r: String)
    ensures
        final(seed)@ == xorshift32(old(seed)@),
        exists|host: Seq<char>, pid: int|
            pid > 0 && nul_free(host) && #[trigger] token_text(host, pid, old(seed)@ as nat) == r@,
        nul_free(r@),
{
    let host = host_or_fallback(node_name());
    let pid = process_id();
    let time = seed.next_timestamp();
    let r = format_token(host.as_str(), pid, time);
    assert(token_text(host@, pid as int, old(seed)@ as nat) == r@);
    proof {
        lemma_token_nul_free(host@, pid as int, time as nat);
    }
    r
}

/// The first timestamps drawn from the initial seed.
pub proof fn lemma_initial_timestamps()
    ensures
        advance(INITIAL_SEED, 0) == 3735928559u32,
        advance(INITIAL_SEED, 1) == 1199382711u32,
        advance(INITIAL_SEED, 2) == 2384302402u32,
{
    reveal_with_fuel(advance, 3);
    assert(xorshift32(3735928559u32) == 1199382711u32) by (bit_vector);
    assert(xorshift32(1199382711u32) == 2384302402u32) by (bit_vector);
}

/// The xorshift32 step is injective: two different seeds never advance to
/// the same value.
pub proof fn lemma_step_injective(a: u32, b: u32)
    ensures
        xorshift32(a) == xorshift32(b) ==> a == b,
{
    assert(xorshift32(a) == xorshift32(b) ==> a == b) by (bit_vector);
}

/// A non-zero seed advances to a non-zero value different from itself, so
/// two successive timestamps differ.
pub proof fn lemma_step_moves_nonzero(x: u32)
    requires
        x != 0,
    ensures
        xorshift32(x) != 0,
        xorshift32(x) != x,
{
    assert(x != 0 ==> xorshift32(x) != 0) by (bit_vector);
    assert(x != 0 ==> xorshift32(x) != x) by (bit_vector);
}

/// Successive timestamps from a non-zero seed are never zero and never repeat
/// the one just before.
pub proof fn lemma_successive_timestamps(s: u32, n: nat)
    requires
        s != 0,
    ensures
        advance(s, n) != 0,
        advance(s, n + 1) != advance(s, n),
    decreases n,
{
    if n > 0 {
        lemma_successive_timestamps(s, (n - 1) as nat);
        lemma_step_moves_nonzero(advance(s, (n - 1) as nat));
    }
    lemma_step_moves_nonzero(advance(s, n));
}

proof fn lemma_decimal_nul_free(n: nat)
    ensures
        nul_free(decimal(n)),
    decreases n,
{
    if n >= 10 {
        lemma_decimal_nul_free(n / 10);
        assert(nul_free(decimal(n)));
    }
}

/// A token made of a NUL-free host name holds no NUL: safe to embed in the
/// NUL-terminated completion message.
pub proof fn lemma_token_nul_free(host: Seq<char>, pid: int, time: nat)
    requires
        nul_free(host),
    ensures
        nul_free(token_text(host, pid, time)),
{
    lemma_decimal_nul_free(time);
    if pid < 0 {
        lemma_decimal_nul_free((-pid) as nat);
        assert(nul_free(signed_decimal(pid)));
    } else {
        lemma_decimal_nul_free(pid as nat);
    }
    let t = token_text(host, pid, time);
    assert(t =~= host + signed_decimal(pid) + time_marker() + decimal(time));
}

proof fn lemma_digit_char_injective(a: nat, b: nat)
    requires
        a < 10,
        b < 10,
        digit_char(a) == digit_char(b),
    ensures
        a == b,
{
}

proof fn lemma_decimal_nonempty(n: nat)
    ensures
        decimal(n).len() >= 1,
    decreases n,
{
    if n >= 10 {
        lemma_decimal_nonempty(n / 10);
    }
}

/// Different numbers have different decimal representations.
pub proof fn lemma_decimal_injective(a: nat, b: nat)
    requires
        decimal(a) == decimal(b),
    ensures
        a == b,
    decreases a,
{
    if a < 10 && b < 10 {
        assert(decimal(a)[0] == digit_char(a));
        assert(decimal(b)[0] == digit_char(b));
        lemma_digit_char_injective(a, b);
    } else if a < 10 {
        lemma_decimal_nonempty(b / 10);
    } else if b < 10 {
        lemma_decimal_nonempty(a / 10);
    } else {
        let da = decimal(a / 10);
        let db = decimal(b / 10);
        assert(decimal(a).last() == digit_char(a % 10));
        assert(decimal(b).last() == digit_char(b % 10));
        lemma_digit_char_injective(a % 10, b % 10);
        assert(da =~= decimal(a).drop_last());
        assert(db =~= decimal(b).drop_last());
        lemma_decimal_injective(a / 10, b / 10);
    }
}

/// Tokens of one host and process that carry different timestamps differ.
pub proof fn lemma_distinct_timestamps_distinct_tokens(host: Seq<char>, pid: int, t1: nat, t2: nat)
    requires
        t1 != t2,
    ensures
        token_text(host, pid, t1) != token_text(host, pid, t2),
{
    if token_text(host, pid, t1) == token_text(host, pid, t2) {
        let p = token_prefix(host, pid);
        assert(token_text(host, pid, t1).subrange(p.len() as int, token_text(host, pid, t1).len() as int) =~= decimal(t1));
        assert(token_text(host, pid, t2).subrange(p.len() as int, token_text(host, pid, t2).len() as int) =~= decimal(t2));
        lemma_decimal_injective(t1, t2);
    }
}

proof fn lemma_advance_split(s: u32, i: nat, d: nat)
    ensures
        advance(s, i + d) == advance(advance(s, i), d),
    decreases d,
{
    if d > 0 {
        lemma_advance_split(s, i, (d - 1) as nat);
        assert(advance(s, i + d) == xorshift32(advance(s, (i + d - 1) as nat)));
    }
}

/// A non-zero seed does not come back to itself within four steps.
#[verifier::rlimit(100)]
pub proof fn lemma_no_short_cycle(x: u32)
    requires
        x != 0,
    ensures
        advance(x, 1) != x,
        advance(x, 2) != x,
        advance(x, 3) != x,
        advance(x, 4) != x,
{
    reveal_with_fuel(advance, 5);
    let y1 = xorshift32(x);
    let y2 = xorshift32(y1);
    let y3 = xorshift32(y2);
    let y4 = xorshift32(y3);
    lemma_step_moves_nonzero(x);
    assert(y2 != x) by (bit_vector)
        requires
            x != 0,
            y1 == xorshift32(x),
            y2 == xorshift32(y1),
    ;
    assert(y3 != x) by (bit_vector)
        requires
            x != 0,
            y1 == xorshift32(x),
            y2 == xorshift32(y1),
            y3 == xorshift32(y2),
    ;
    assert(y4 != x) by (bit_vector)
        requires
            x != 0,
            y1 == xorshift32(x),
            y2 == xorshift32(y1),
            y3 == xorshift32(y2),
            y4 == xorshift32(y3),
    ;
}

/// Any five consecutive timestamps drawn from a non-zero seed are pairwise
/// distinct. With `lemma_distinct_timestamps_distinct_tokens`, so are the
/// tokens of one host and process that carry them.
pub proof fn lemma_consecutive_timestamps_distinct(s: u32, i: nat, j: nat)
    requires
        s != 0,
        i < j <= i + 4,
    ensures
        advance(s, i) != advance(s, j),
{
    let d = (j - i) as nat;
    lemma_advance_split(s, i, d);
    lemma_successive_timestamps(s, i);
    lemma_no_short_cycle(advance(s, i));
}

} // verus!

use vstd::prelude::*;

verus! {

/// Log level of the firmware's `printk`: most verbose.
pub const BIOS_SPEW: u32 = 0;
/// Log level of the firmware's `printk`: debugging output.
pub const BIOS_DEBUG: u32 = 1;
/// Log level of the firmware's `printk`: information.
pub const BIOS_INFO: u32 = 2;
/// Log level of the firmware's `printk`: warnings.
pub const BIOS_WARNING: u32 = 4;
/// Log level of the firmware's `printk`: errors.
pub const BIOS_ERR: u32 = 5;
/// Longest message, in bytes, that the C-string helpers look at.
pub const PRINTK_BUFFER_SIZE: usize = 255;

/// Index of the first NUL byte of `s` at or after `i`, where the scan stops
/// at `PRINTK_BUFFER_SIZE` at the latest.
pub open spec fn c_str_end(s: Seq<u8>, i: nat) -> nat
    decreases PRINTK_BUFFER_SIZE - i,
{
    if i >= PRINTK_BUFFER_SIZE || s[i as int] == 0 {
        i
    } else {
        c_str_end(s, i + 1)
    }
}

/// Length of the C string at the start of `s`, capped at
/// `PRINTK_BUFFER_SIZE`.
pub open spec fn c_str_len(s: Seq<u8>) -> nat {
    c_str_end(s, 0)
}

/// The scan of `s` for its terminator stays inside `s`: either `s` holds a
/// NUL byte, or it is longer than the cap.
pub open spec fn c_str_readable(s: Seq<u8>) -> bool {
    s.len() > PRINTK_BUFFER_SIZE || s.contains(0u8)
}

/// The message that a C string at the start of `s` carries: its bytes up to
/// the terminator or the cap.
pub open spec fn c_str_message(s: Seq<u8>) -> Seq<u8> {
    s.subrange(0, c_str_len(s) as int)
}

proof fn lemma_c_str_end_bounds(s: Seq<u8>, i: nat)
    requires
        i <= PRINTK_BUFFER_SIZE,
    ensures
        i <= c_str_end(s, i) <= PRINTK_BUFFER_SIZE,
        forall|j: int| i <= j < c_str_end(s, i) ==> s[j] != 0,
        c_str_end(s, i) < PRINTK_BUFFER_SIZE ==> s[c_str_end(s, i) as int] == 0,
    decreases PRINTK_BUFFER_SIZE - i,
{
    if i < PRINTK_BUFFER_SIZE && s[i as int] != 0 {
        lemma_c_str_end_bounds(s, i + 1);
    }
}

/// What the length of a C string is: at most the cap, no NUL before it, and
/// a NUL at it unless the cap was reached.
pub proof fn lemma_c_str_len(s: Seq<u8>)
    ensures
        c_str_len(s) <= PRINTK_BUFFER_SIZE,
        forall|j: int| 0 <= j < c_str_len(s) ==> s[j] != 0,
        c_str_len(s) < PRINTK_BUFFER_SIZE ==> s[c_str_len(s) as int] == 0,
{
    lemma_c_str_end_bounds(s, 0);
}

/// The message of a C string is its bytes before the terminator, each
/// unchanged: as long as the string, and equal to the buffer at every
/// position.
pub proof fn lemma_c_str_message_is_prefix(s: Seq<u8>)
    requires
        c_str_readable(s),
    ensures
        c_str_message(s).len() == c_str_len(s),
        forall|j: int| 0 <= j < c_str_len(s) ==> #[trigger] c_str_message(s)[j] == s[j],
        forall|j: int| 0 <= j < c_str_len(s) ==> #[trigger] c_str_message(s)[j] != 0,
{
    lemma_c_str_len(s);
    lemma_c_str_len_in_bounds(s);
}

/// A readable C string ends inside its buffer.
pub proof fn lemma_c_str_len_in_bounds(s: Seq<u8>)
    requires
        c_str_readable(s),
    ensures
        c_str_len(s) < s.len() || c_str_len(s) == PRINTK_BUFFER_SIZE,
        c_str_len(s) <= s.len(),
{
    lemma_c_str_len(s);
    if s.len() <= PRINTK_BUFFER_SIZE {
        let k = choose|k: int| 0 <= k < s.len() && s[k] == 0u8;
        assert(s[k] == 0u8);
        if c_str_len(s) > k {
            assert(s[k] != 0);
        }
    }
}

/// Length of the NUL-terminated string at the start of `msg`, counting at
/// most `PRINTK_BUFFER_SIZE` bytes.
pub fn str_len(msg: &[u8]) -> (len: usize)
    requires
        c_str_readable(msg@),
    ensures
        len == c_str_len(msg@),
        len <= PRINTK_BUFFER_SIZE,
        len <= msg@.len(),
        forall|j: int| 0 <= j < len ==> msg@[j] != 0,
        len < PRINTK_BUFFER_SIZE ==> msg@[len as int] == 0,
{
    proof {
        lemma_c_str_len(msg@);
        lemma_c_str_len_in_bounds(msg@);
    }
    let mut len: usize = 0;
    while len < PRINTK_BUFFER_SIZE && msg[len] != 0
        invariant
            len <= c_str_len(msg@),
            c_str_end(msg@, len as nat) == c_str_len(msg@),
            c_str_len(msg@) <= PRINTK_BUFFER_SIZE,
            c_str_len(msg@) < msg@.len() || c_str_len(msg@) == PRINTK_BUFFER_SIZE,
            c_str_len(msg@) <= msg@.len(),
        decreases PRINTK_BUFFER_SIZE - len,
    {
        proof {
            lemma_c_str_end_bounds(msg@, (len + 1) as nat);
        }
        len = len + 1;
    }
    len
}

/// Copies the C string at the start of `src`, without its terminator, to
/// the start of `dst`; the rest of `dst` is left as it was.
pub fn strcopy_compat(dst: &mut [u8], src: &[u8])
    requires
        c_str_readable(src@),
        c_str_len(src@) <= old(dst)@.len(),
    ensures
        final(dst)@ == c_str_message(src@) + old(dst)@.subrange(
            c_str_len(src@) as int,
            old(dst)@.len() as int,
        ),
        final(dst)@.len() == old(dst)@.len(),
        forall|j: int| 0 <= j < c_str_len(src@) ==> final(dst)@[j] == src@[j],
        forall|j: int| c_str_len(src@) <= j < old(dst)@.len() ==> final(dst)@[j] == old(dst)@[j],
{
    let len = str_len(src);
    let mut i: usize = 0;
    while i < len
        invariant
            len == c_str_len(src@),
            len <= src@.len(),
            i <= len,
            len <= old(dst)@.len(),
            dst@.len() == old(dst)@.len(),
            forall|j: int| 0 <= j < i ==> dst@[j] == src@[j],
            forall|j: int| i <= j < dst@.len() ==> dst@[j] == old(dst)@[j],
        decreases len - i,
    {
        dst[i] = src[i];
        i = i + 1;
    }
    assert(dst@ =~= c_str_message(src@) + old(dst)@.subrange(len as int, old(dst)@.len() as int));
}

/// Whether `c` is an upper-case ASCII letter.
pub open spec fn is_ascii_upper(c: u8) -> bool {
    0x41 <= c <= 0x5a
}

/// C's `isupper` for the bytes the driver passes: 1 for `'A'..='Z'`, else 0.
pub fn isupper_compat(c: u8) -> (r: i32)
    ensures
        r == (if is_ascii_upper(c) { 1i32 } else { 0i32 }),
        r == (if 0x41 <= c && c <= 0x5a { 1i32 } else { 0i32 }),
{
    if 0x41 <= c && c <= 0x5a {
        1
    } else {
        0
    }
}

/// The bytes of the C string at the start of `msg`, without its terminator.
pub fn c_str_bytes(msg: &[u8]) -> (r: Vec<u8>)
    requires
        c_str_readable(msg@),
    ensures
        r@ == c_str_message(msg@),
        r@.len() == c_str_len(msg@),
        forall|j: int| 0 <= j < r@.len() ==> r@[j] == msg@[j],
{
    let len = str_len(msg);
    let mut r: Vec<u8> = Vec::new();
    let mut i: usize = 0;
    while i < len
        invariant
            len == c_str_len(msg@),
            len <= msg@.len(),
            i <= len,
            r@ == msg@.subrange(0, i as int),
        decreases len - i,
    {
        r.push(msg[i]);
        i = i + 1;
        assert(r@ =~= msg@.subrange(0, i as int));
    }
    r
}

/// What an assertion of the C driver reports: nothing when it holds, else
/// its message, which the caller panics with.
pub fn assert_failure_message(b: bool, msg: &[u8]) -> (r: Option<Vec<u8>>)
    requires
        !b ==> c_str_readable(msg@),
    ensures
        b ==> r is None,
        !b ==> (r matches Some(m) && m@ == c_str_message(msg@)),
        !b ==> (r matches Some(m) && m@.len() == c_str_len(msg@) && forall|j: int|
            0 <= j < m@.len() ==> m@[j] == msg@[j]),
{
    if b {
        None
    } else {
        Some(c_str_bytes(msg))
    }
}

/// The levels of the host's logger that firmware messages go to.
#[derive(Debug, Copy, Clone, PartialEq, Eq)]
pub enum LogLevel {
    Trace,
    Debug,
    Info,
    Warn,
    Error,
}

/// Where a firmware log level goes in the host's logger; levels that the
/// firmware does not define are dropped.
pub open spec fn spec_printk_level(level: u32) -> Option<LogLevel> {
    if level == BIOS_SPEW {
        Some(LogLevel::Trace)
    } else if level == BIOS_DEBUG {
        Some(LogLevel::Debug)
    } else if level == BIOS_INFO {
        Some(LogLevel::Info)
    } else if level == BIOS_WARNING {
        Some(LogLevel::Warn)
    } else if level == BIOS_ERR {
        Some(LogLevel::Error)
    } else {
        None
    }
}

/// The firmware's five defined levels go, in order of severity, to trace,
/// debug, info, warn and error; level 3 and every level above 5 are dropped.
pub proof fn lemma_printk_level_map(level: u32)
    ensures
        spec_printk_level(0) == Some(LogLevel::Trace),
        spec_printk_level(1) == Some(LogLevel::Debug),
        spec_printk_level(2) == Some(LogLevel::Info),
        spec_printk_level(4) == Some(LogLevel::Warn),
        spec_printk_level(5) == Some(LogLevel::Error),
        (level == 3 || level > 5) ==> spec_printk_level(level) is None,
{
}

/// The logger level that a firmware log level is sent to, if any.
pub fn printk_level(level: u32) -> (r: Option<LogLevel>)
    ensures
        r == spec_printk_level(level),
        level == 0 ==> r == Some(LogLevel::Trace),
        level == 1 ==> r == Some(LogLevel::Debug),
        level == 2 ==> r == Some(LogLevel::Info),
        level == 4 ==> r == Some(LogLevel::Warn),
        level == 5 ==> r == Some(LogLevel::Error),
        (level == 3 || level > 5) ==> r is None,
{
    match level {
        BIOS_SPEW => Some(LogLevel::Trace),
        BIOS_DEBUG => Some(LogLevel::Debug),
        BIOS_INFO => Some(LogLevel::Info),
        BIOS_WARNING => Some(LogLevel::Warn),
        BIOS_ERR => Some(LogLevel::Error),
        _ => None,
    }
}

/// What `printk` logs for a level and a C-string message: the logger level
/// and the message bytes, or nothing for a level the firmware does not
/// define.
pub fn printk_record(level: u32, msg: &[u8]) -> (r: Option<(LogLevel, Vec<u8>)>)
    requires
        c_str_readable(msg@),
    ensures
        r is Some <==> spec_printk_level(level) is Some,
        r matches Some((l, m)) ==> (Some(l) == spec_printk_level(level) && m@ == c_str_message(
            msg@,
        )),
        r is Some <==> (level <= 2 || level == 4 || level == 5),
        r matches Some((l, m)) ==> (m@.len() == c_str_len(msg@) && forall|j: int|
            0 <= j < m@.len() ==> m@[j] == msg@[j]),
{
    let text = c_str_bytes(msg);
    match printk_level(level) {
        Some(l) => Some((l, text)),
        None => None,
    }
}

} // verus!

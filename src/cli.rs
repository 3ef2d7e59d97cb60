use vstd::prelude::*;

verus! {

/// Role selected by the first argument.
#[derive(Clone, Copy, Debug, PartialEq, Eq)]
pub enum Mode {
    Send,
    Recv,
}

/// Why the byte-count argument was refused.
#[derive(Clone, Copy, Debug, PartialEq, Eq)]
pub enum SizeError {
    /// The text is empty.
    Empty,
    /// No digit after an optional `+`, or a character that is not a digit.
    InvalidDigit,
    /// The value does not fit in `usize`.
    Overflow,
}

/// What an invocation asks for.
#[derive(Debug, PartialEq, Eq)]
pub enum Command {
    /// Not exactly three arguments after the program name.
    Usage,
    /// The byte count could not be read.
    BadSize(SizeError),
    /// The mode is neither `send` nor `recv`.
    InvalidMode,
    /// A transfer to run.
    Run { mode: Mode, address: String, total_size: usize },
}

pub open spec fn mode_spec(s: Seq<char>) -> Option<Mode> {
    if s == seq!['s', 'e', 'n', 'd'] {
        Some(Mode::Send)
    } else if s == seq!['r', 'e', 'c', 'v'] {
        Some(Mode::Recv)
    } else {
        None
    }
}

pub open spec fn is_digit(c: char) -> bool {
    '0' <= c && c <= '9'
}

pub open spec fn all_digits(s: Seq<char>) -> bool {
    forall|i: int| 0 <= i < s.len() ==> is_digit(#[trigger] s[i])
}

/// Value of a string of decimal digits.
pub open spec fn decimal_value(s: Seq<char>) -> nat
    decreases s.len(),
{
    if s.len() == 0 {
        0
    } else {
        decimal_value(s.drop_last()) * 10 + (s.last() as nat - '0' as nat) as nat
    }
}

/// The digits of a byte count: the text after one optional leading `+`.
pub open spec fn digits_part(s: Seq<char>) -> Seq<char> {
    if s.len() > 0 && s[0] == '+' {
        s.drop_first()
    } else {
        s
    }
}

/// Reading of a byte count as a non-negative decimal integer.
pub open spec fn size_spec(s: Seq<char>) -> Result<usize, SizeError> {
    let d = digits_part(s);
    if s.len() == 0 {
        Err(SizeError::Empty)
    } else if d.len() == 0 || !all_digits(d) {
        Err(SizeError::InvalidDigit)
    } else if decimal_value(d) > usize::MAX {
        Err(SizeError::Overflow)
    } else {
        Ok(decimal_value(d) as usize)
    }
}

/// Reads the mode argument.
pub fn parse_mode(s: &str) -> (r: Option<Mode>)
    ensures
        r == mode_spec(s@),
{
    proof {
        reveal_strlit("send");
        reveal_strlit("recv");
    }
    if s.unicode_len() != 4 {
        return None;
    }
    let c0 = s.get_char(0);
    let c1 = s.get_char(1);
    let c2 = s.get_char(2);
    let c3 = s.get_char(3);
    if c0 == 's' && c1 == 'e' && c2 == 'n' && c3 == 'd' {
        assert(s@ =~= seq!['s', 'e', 'n', 'd']);
        Some(Mode::Send)
    } else if c0 == 'r' && c1 == 'e' && c2 == 'c' && c3 == 'v' {
        assert(s@ =~= seq!['r', 'e', 'c', 'v']);
        Some(Mode::Recv)
    } else {
        None
    }
}

proof fn lemma_decimal_monotone(s: Seq<char>, i: int, j: int)
    requires
        0 <= i <= j <= s.len(),
        all_digits(s),
    ensures
        decimal_value(s.subrange(0, i)) <= decimal_value(s.subrange(0, j)),
    decreases j - i,
{
    if i < j {
        lemma_decimal_monotone(s, i, j - 1);
        assert(s.subrange(0, j).drop_last() =~= s.subrange(0, j - 1));
        assert(is_digit(s[j - 1]));
    }
}

/// Reads the byte-count argument as a decimal `usize`, with an optional
/// leading `+`.
pub fn parse_total_size(s: &str) -> (r: Result<usize, SizeError>)
    ensures
        r == size_spec(s@),
{
    let len = s.unicode_len();
    if len == 0 {
        return Err(SizeError::Empty);
    }
    let start: usize = if s.get_char(0) == '+' {
        1
    } else {
        0
    };
    let ghost d = digits_part(s@);
    assert(d =~= s@.subrange(start as int, len as int));
    if start == len {
        return Err(SizeError::InvalidDigit);
    }
    let mut i: usize = start;
    while i < len
        invariant
            start <= i <= len,
            len == s@.len(),
            d == digits_part(s@),
            d =~= s@.subrange(start as int, len as int),
            forall|k: int| 0 <= k < i - start ==> is_digit(#[trigger] d[k]),
        decreases len - i,
    {
        let c = s.get_char(i);
        if !('0' <= c && c <= '9') {
            assert(d[i - start] == s@[i as int]);
            assert(!is_digit(d[i - start]));
            return Err(SizeError::InvalidDigit);
        }
        i = i + 1;
    }
    assert(all_digits(d));
    let mut acc: usize = 0;
    let mut j: usize = start;
    while j < len
        invariant
            start <= j <= len,
            len == s@.len(),
            d == digits_part(s@),
            d =~= s@.subrange(start as int, len as int),
            all_digits(d),
            acc == decimal_value(d.subrange(0, j - start)),
        decreases len - j,
    {
        let c = s.get_char(j);
        proof {
            assert(d[j - start] == c);
            assert(is_digit(d[j - start]));
            assert(d.subrange(0, j + 1 - start).drop_last() =~= d.subrange(0, j - start));
            assert(d.subrange(0, j + 1 - start).last() == c);
        }
        let digit: usize = (c as u32 - '0' as u32) as usize;
        assert(decimal_value(d.subrange(0, j + 1 - start)) == acc * 10 + digit);
        if acc > (usize::MAX - digit) / 10 {
            proof {
                assert(acc * 10 + digit > usize::MAX);
                lemma_decimal_monotone(d, j + 1 - start, d.len() as int);
                assert(d.subrange(0, d.len() as int) =~= d);
            }
            return Err(SizeError::Overflow);
        }
        acc = acc * 10 + digit;
        j = j + 1;
    }
    assert(d.subrange(0, d.len() as int) =~= d);
    Ok(acc)
}

/// Dispatches on the arguments, the program name first. The byte count is
/// read before the mode is looked at.
pub fn parse_command(args: &Vec<String>) -> (r: Command)
    ensures
        args@.len() != 4 ==> r == Command::Usage,
        args@.len() == 4 ==> match size_spec(args@[3]@) {
            Err(e) => r == Command::BadSize(e),
            Ok(n) => match mode_spec(args@[1]@) {
                None => r == Command::InvalidMode,
                Some(m) => r matches Command::Run { mode, address, total_size }
                    && mode == m && address@ == args@[2]@ && total_size == n,
            },
        },
{
    if args.len() != 4 {
        return Command::Usage;
    }
    let total_size = match parse_total_size(args[3].as_str()) {
        Ok(n) => n,
        Err(e) => return Command::BadSize(e),
    };
    match parse_mode(args[1].as_str()) {
        Some(mode) => Command::Run { mode, address: args[2].clone(), total_size },
        None => Command::InvalidMode,
    }
}

} // verus!

//! Text shown to the user: durations, temporary file names and the loading
//! spinner.
use vstd::prelude::*;

verus! {

/// The decimal digit for `d < 10`.
pub open spec fn digit_char(d: nat) -> char {
    (48 + d) as char
}

/// The decimal numeral of `n`, without leading zeros.
pub open spec fn decimal(n: nat) -> Seq<char>
    decreases n,
{
    if n < 10 {
        seq![digit_char(n)]
    } else {
        decimal(n / 10).push(digit_char(n % 10))
    }
}

fn digit_str(d: u64) -> (s: &'static str)
    requires
        d < 10,
    ensures
        s@ == seq![digit_char(d as nat)],
{
    proof {
        reveal_strlit("0");
        reveal_strlit("1");
        reveal_strlit("2");
        reveal_strlit("3");
        reveal_strlit("4");
        reveal_strlit("5");
        reveal_strlit("6");
        reveal_strlit("7");
        reveal_strlit("8");
        reveal_strlit("9");
    }
    match d {
        0 => "0",
        1 => "1",
        2 => "2",
        3 => "3",
        4 => "4",
        5 => "5",
        6 => "6",
        7 => "7",
        8 => "8",
        _ => "9",
    }
}

/// Appends the decimal numeral of `n` to `s`.
pub fn push_decimal(s: &mut String, n: u64)
    ensures
        final(s)@ == old(s)@ + decimal(n as nat),
    decreases n,
{
    if n >= 10 {
        push_decimal(s, n / 10);
        s.append(digit_str(n % 10));
        assert(decimal(n as nat) == decimal((n / 10) as nat).push(digit_char((n % 10) as nat)));
        assert(old(s)@ + decimal(n as nat) =~= old(s)@ + decimal((n / 10) as nat) + seq![digit_char((n % 10) as nat)]);
    } else {
        s.append(digit_str(n));
    }
}

/// The fractional part of a duration with `r` hundredths of a second
/// (`r < 100`), as printed with two decimals and trailing zeros trimmed.
pub open spec fn hundredths_text(r: nat) -> Seq<char> {
    if r == 0 {
        Seq::empty()
    } else if r % 10 == 0 {
        seq!['.', digit_char(r / 10)]
    } else {
        seq!['.', digit_char(r / 10), digit_char(r % 10)]
    }
}

/// A duration of `centis` hundredths of a second in seconds, printed with
/// two decimals, trailing zeros and a trailing point trimmed, and an `s`.
pub open spec fn secs_text(centis: nat) -> Seq<char> {
    decimal(centis / 100) + hundredths_text(centis % 100) + seq!['s']
}

/// Formats a duration given in centiseconds as seconds: `150` gives
/// `"1.5s"`, `100` gives `"1s"`, `105` gives `"1.05s"`.
pub fn fmt_secs(centis: u32) -> (s: String)
    ensures
        s@ == secs_text(centis as nat),
{
    let mut s = String::new();
    push_decimal(&mut s, (centis / 100) as u64);
    let r = centis % 100;
    if r != 0 {
        let dot = ".";
        proof {
            reveal_strlit(".");
        }
        s.append(dot);
        s.append(digit_str((r / 10) as u64));
        if r % 10 != 0 {
            s.append(digit_str((r % 10) as u64));
        }
    }
    let unit = "s";
    proof {
        reveal_strlit("s");
    }
    s.append(unit);
    assert(s@ =~= secs_text(centis as nat));
    s
}

/// The label of a loaded GIF: its duration, and the lengthened duration
/// after an arrow when it was lengthened.
pub open spec fn duration_label_text(original_centis: nat, unfucked_centis: Option<nat>) -> Seq<char> {
    match unfucked_centis {
        Some(u) => secs_text(original_centis) + seq![' ', '\u{2192}', ' '] + secs_text(u),
        None => secs_text(original_centis),
    }
}

/// The duration label of a loaded GIF, such as `"0.4s → 1.2s"`.
pub fn duration_label(original_centis: u32, unfucked_centis: Option<u32>) -> (s: String)
    ensures
        s@ == duration_label_text(
            original_centis as nat,
            match unfucked_centis {
                Some(u) => Some(u as nat),
                None => None,
            },
        ),
{
    let mut s = fmt_secs(original_centis);
    match unfucked_centis {
        Some(u) => {
            let arrow = " \u{2192} ";
            proof {
                reveal_strlit(" \u{2192} ");
            }
            s.append(arrow);
            let t = fmt_secs(u);
            s.append(t.as_str());
        },
        None => {},
    }
    s
}

/// The name of the `counter`-th temporary file of process `pid`.
pub open spec fn temp_file_name_text(pid: nat, counter: nat) -> Seq<char> {
    "bsky-gif-unfucker-"@ + decimal(pid) + seq!['-'] + decimal(counter) + ".gif"@
}

/// The name of the `counter`-th temporary file written by process `pid`,
/// such as `"bsky-gif-unfucker-42-0.gif"`.
pub fn temp_file_name(pid: u32, counter: usize) -> (s: String)
    ensures
        s@ == temp_file_name_text(pid as nat, counter as nat),
{
    let mut s = String::from_str("bsky-gif-unfucker-");
    push_decimal(&mut s, pid as u64);
    let dash = "-";
    proof {
        reveal_strlit("-");
    }
    s.append(dash);
    push_decimal(&mut s, counter as u64);
    s.append(".gif");
    assert(s@ =~= temp_file_name_text(pid as nat, counter as nat));
    s
}

/// The frames of the loading spinner.
pub open spec fn spinner_frames() -> Seq<Seq<char>> {
    seq![
        "\u{280b}"@, "\u{2819}"@, "\u{2839}"@, "\u{2838}"@, "\u{283c}"@,
        "\u{2834}"@, "\u{2826}"@, "\u{2827}"@, "\u{2807}"@, "\u{280f}"@,
    ]
}

/// The spinner glyph for the `frame`-th tick: the frames cycle in order.
pub fn spinner_glyph(frame: usize) -> (s: &'static str)
    ensures
        s@ == spinner_frames()[(frame % 10) as int],
{
    match frame % 10 {
        0 => "\u{280b}",
        1 => "\u{2819}",
        2 => "\u{2839}",
        3 => "\u{2838}",
        4 => "\u{283c}",
        5 => "\u{2834}",
        6 => "\u{2826}",
        7 => "\u{2827}",
        8 => "\u{2807}",
        _ => "\u{280f}",
    }
}

/// Law: a whole number of seconds prints without a decimal point.
pub proof fn law_whole_seconds_print_plainly(seconds: nat)
    ensures
        secs_text(100 * seconds) == decimal(seconds) + seq!['s'],
{
    assert((100 * seconds) / 100 == seconds);
    assert((100 * seconds) % 100 == 0);
    assert(decimal(seconds) + Seq::<char>::empty() =~= decimal(seconds));
}

/// Law: the label of a lengthened GIF is the label it has when left alone,
/// its own duration, followed by an arrow and the lengthened duration,
/// whatever both durations are.
pub proof fn law_lengthened_label_shows_both(original_centis: nat, unfucked_centis: nat)
    ensures
        duration_label_text(original_centis, None) == secs_text(original_centis),
        duration_label_text(original_centis, Some(unfucked_centis))
            == duration_label_text(original_centis, None) + " \u{2192} "@ + secs_text(unfucked_centis),
{
    reveal_strlit(" \u{2192} ");
    assert(" \u{2192} "@ =~= seq![' ', '\u{2192}', ' ']);
}

} // verus!

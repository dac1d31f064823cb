use vstd::prelude::*;
use crate::pd::State;
use crate::text::{
    decimal, decimal2, digit_char, digits_value, law_decimal_reads_back, law_digit_is_ascii,
    lemma_decimal_len, pow10, push_decimal, push_decimal2,
};

verus! {

/// Which label a temperature is shown with.
#[derive(Clone, Copy, PartialEq, Eq, Structural, Debug)]
pub enum TemperatureFormatting {
    Target,
    Actual,
    Unlabelled,
}

/// The size of a value given in tenths, without its sign.
pub open spec fn tenths_magnitude(t: int) -> nat {
    if t < 0 {
        (-t) as nat
    } else {
        t as nat
    }
}

/// A value given in tenths, written as an optional minus sign, the whole part, a point and
/// the tenths digit, as `-0.5` for minus five tenths.
pub open spec fn tenths_text(t: int) -> Seq<char> {
    (if t < 0 {
        seq!['-']
    } else {
        Seq::empty()
    }) + decimal(tenths_magnitude(t) / 10) + seq!['.'] + decimal(tenths_magnitude(t) % 10)
}

/// The label in front of a temperature.
pub open spec fn temperature_label(kind: TemperatureFormatting) -> Seq<char> {
    match kind {
        TemperatureFormatting::Target => "Tar: "@,
        TemperatureFormatting::Actual => "Act: "@,
        TemperatureFormatting::Unlabelled => Seq::empty(),
    }
}

/// Splits a value given in tenths into its sign (whether it is below zero), its whole part
/// and its tenths digit, both without the sign.
pub fn split_tenths(t: i32) -> (parts: (bool, u32, u32))
    ensures
        parts.0 == (t < 0),
        parts.1 == tenths_magnitude(t as int) / 10,
        parts.2 == tenths_magnitude(t as int) % 10,
{
    let mag: u32 = if t < 0 {
        (0i64 - t as i64) as u32
    } else {
        t as u32
    };
    (t < 0, mag / 10, mag % 10)
}

/// Sign, whole part and tenths digit put back together give the value again, and the
/// tenths digit is a single digit.
pub proof fn law_tenths_split_reconstructs(t: int)
    ensures
        tenths_magnitude(t) % 10 < 10,
        tenths_magnitude(t) == (tenths_magnitude(t) / 10) * 10 + tenths_magnitude(t) % 10,
        t == (if t < 0 {
            -tenths_magnitude(t)
        } else {
            tenths_magnitude(t) as int
        }),
{
}

/// A value in tenths is written as it reads: a minus sign exactly where it is below zero,
/// then the digits of its whole part (read back in base 10, the size of the value divided
/// by ten), a point, and the tenths digit (the size of the value modulo ten).
pub proof fn law_tenths_text_spells_value(t: int)
    ensures
        ({
            let s = tenths_text(t);
            let m = if t < 0 {
                -t
            } else {
                t
            };
            let body = if t < 0 {
                s.skip(1)
            } else {
                s
            };
            &&& s.len() >= 3
            &&& (s[0] == '-' <==> t < 0)
            &&& body[body.len() - 2] == '.'
            &&& forall|i: int| 0 <= i < body.len() - 2 ==> '0' <= #[trigger] body[i] <= '9'
            &&& digits_value(body.take(body.len() - 2)) == m / 10
            &&& body.last() as int - '0' as int == m % 10
        }),
{
    let m = tenths_magnitude(t);
    law_decimal_reads_back(m / 10);
    law_decimal_reads_back(m % 10);
    law_digit_is_ascii(m % 10);
    let whole = decimal(m / 10);
    let body = whole + seq!['.'] + decimal(m % 10);
    assert(decimal(m % 10) == seq![digit_char(m % 10)]);
    assert(body.take(body.len() - 2) =~= whole);
    if t < 0 {
        assert(tenths_text(t).skip(1) =~= body);
    } else {
        assert(tenths_text(t) =~= body);
        assert(whole[0] != '-');
    }
}

fn push_tenths(out: &mut String, t: i32)
    ensures
        final(out)@ == old(out)@ + tenths_text(t as int),
{
    let (negative, whole, frac) = split_tenths(t);
    let ghost sign: Seq<char> = if negative {
        seq!['-']
    } else {
        Seq::empty()
    };
    if negative {
        proof { reveal_strlit("-"); }
        out.append("-");
    }
    assert(out@ =~= old(out)@ + sign);
    push_decimal(out, whole as u64);
    proof { reveal_strlit("."); }
    out.append(".");
    push_decimal(out, frac as u64);
    assert(final(out)@ =~= old(out)@ + tenths_text(t as int)) by {
        assert(tenths_text(t as int) =~= sign + decimal(whole as nat) + seq!['.'] + decimal(
            frac as nat,
        ));
    }
}

/// A temperature given in tenths of a degree, with its label: for example `Tar: 123.4°C`.
pub fn format_temp(tenths: i32, kind: TemperatureFormatting) -> (s: String)
    ensures
        s@ == temperature_label(kind) + tenths_text(tenths as int) + seq!['°', 'C'],
{
    let mut s = String::new();
    match kind {
        TemperatureFormatting::Target => {
            proof { reveal_strlit("Tar: "); }
            s.append("Tar: ");
        },
        TemperatureFormatting::Actual => {
            proof { reveal_strlit("Act: "); }
            s.append("Act: ");
        },
        TemperatureFormatting::Unlabelled => {},
    }
    let ghost label = s@;
    assert(label == temperature_label(kind));
    push_tenths(&mut s, tenths);
    proof { reveal_strlit("°C"); }
    s.append("°C");
    s
}

/// A supply voltage given in tenths of a volt: for example `VCC: 20.0V`. The text takes at
/// most 10 characters, the room the display line has for it, which holds voltages from
/// -9.9 V to 99.9 V.
pub fn format_voltage(tenths: i32) -> (s: String)
    requires
        -99 <= tenths <= 999,
    ensures
        s@ == "VCC: "@ + tenths_text(tenths as int) + seq!['V'],
        s@.len() <= 10,
{
    proof {
        reveal_strlit("VCC: ");
        assert(pow10(1) == 10 && pow10(2) == 100) by {
            reveal_with_fuel(pow10, 3);
        }
        let m = tenths_magnitude(tenths as int);
        if tenths < 0 {
            lemma_decimal_len(m / 10, 1);
        } else {
            lemma_decimal_len(m / 10, 2);
        }
        lemma_decimal_len(m % 10, 1);
    }
    let mut s = String::new();
    proof { reveal_strlit("VCC: "); }
    s.append("VCC: ");
    push_tenths(&mut s, tenths);
    proof { reveal_strlit("V"); }
    s.append("V");
    s
}

/// A number of seconds as minutes and seconds, each with at least two digits: `03:07`.
pub open spec fn clock_text(total_secs: nat) -> Seq<char> {
    decimal2(total_secs / 60) + seq![':'] + decimal2(total_secs % 60)
}

/// A number of seconds as minutes and seconds, each with at least two digits: `03:07`.
/// The text takes at most 8 characters, the room the display has for it, which holds
/// times below 100000 minutes.
pub fn format_secs(total_secs: u64) -> (s: String)
    requires
        total_secs < 6_000_000,
    ensures
        s@ == clock_text(total_secs as nat),
        s@.len() <= 8,
{
    proof {
        assert(pow10(5) == 100000 && pow10(2) == 100) by {
            reveal_with_fuel(pow10, 6);
        }
        lemma_decimal_len(total_secs as nat / 60, 5);
        lemma_decimal_len(total_secs as nat % 60, 2);
    }
    let mut s = String::new();
    push_decimal2(&mut s, total_secs / 60);
    proof { reveal_strlit(":"); }
    s.append(":");
    push_decimal2(&mut s, total_secs % 60);
    assert(s@ =~= clock_text(total_secs as nat));
    s
}

/// The minutes and seconds shown make up the whole time, and fewer than 60 seconds are shown.
pub proof fn law_clock_parts_make_up_the_time(total_secs: nat)
    ensures
        (total_secs / 60) * 60 + total_secs % 60 == total_secs,
        total_secs % 60 < 60,
{
}

/// The heater's duty cycle: `Duty Cycle: 42%`.
pub fn format_duty_cycle(percent: u8) -> (s: String)
    ensures
        s@ == "Duty Cycle: "@ + decimal(percent as nat) + seq!['%'],
{
    let mut s = String::new();
    proof { reveal_strlit("Duty Cycle: "); }
    s.append("Duty Cycle: ");
    push_decimal(&mut s, percent as u64);
    proof { reveal_strlit("%"); }
    s.append("%");
    s
}

/// The time since the run began: `Elap: 01:30`.
pub fn elapsed_text(elapsed_secs: u64) -> (s: String)
    requires
        elapsed_secs < 6_000_000,
    ensures
        s@ == "Elap: "@ + clock_text(elapsed_secs as nat),
{
    let mut s = String::new();
    proof { reveal_strlit("Elap: "); }
    s.append("Elap: ");
    let clock = format_secs(elapsed_secs);
    s.append(clock.as_str());
    s
}

/// The time left in the run: `Rem: 01:30`.
pub fn remaining_text(total_time_left: u16) -> (s: String)
    ensures
        s@ == "Rem: "@ + clock_text(total_time_left as nat),
{
    let mut s = String::new();
    proof { reveal_strlit("Rem: "); }
    s.append("Rem: ");
    let clock = format_secs(total_time_left as u64);
    s.append(clock.as_str());
    s
}

/// The line that shows the state of USB PD negotiation.
pub fn pd_state_text(state: &State) -> (s: &'static str)
    ensures
        s@ == (match state {
            State::Good(_) => "PD State: Good"@,
            State::NotAttached => "PD State: N/A"@,
            State::Error => "PD State: Error"@,
        }),
{
    match state {
        State::Good(_) => "PD State: Good",
        State::NotAttached => "PD State: N/A",
        State::Error => "PD State: Error",
    }
}

/// The height of the progress bar, in pixels.
pub const BAR_HEIGHT: i32 = 8;

/// The gap between the progress bar and its border.
pub const BORDER_MARGIN: i32 = 1;

/// The width of the progress bar's border.
pub const BORDER_WIDTH: i32 = 1;

/// The width of the area that holds the progress screen's lines of text.
pub const TEXT_AREA_WIDTH: u32 = 128;

/// Where the parts of the progress screen go on a display of the given size, below a
/// title of `title_height` pixels; the filled part of the bar is `bar_track_width` times
/// `elapsed / progress_denominator` pixels wide.
#[derive(Clone, Copy, PartialEq, Eq, Structural, Debug)]
pub struct ProgressLayout {
    pub text_area_y: i32,
    pub text_area_width: u32,
    pub text_area_height: u32,
    pub border_y: i32,
    pub border_width: u32,
    pub border_height: u32,
    pub bar_x: i32,
    pub bar_y: i32,
    pub bar_track_width: u32,
    pub bar_height: u32,
    pub progress_denominator: u16,
}

/// The layout of the progress screen, or `None` where one of its coordinates overflows
/// (a display too small for the title or the bar, or a run whose elapsed seconds, taken
/// modulo 2^16, and remaining seconds add up to more than `u16::MAX`).
pub open spec fn progress_layout_spec(
    width: u32,
    height: u32,
    title_height: u32,
    elapsed_secs: u64,
    total_time_left: u16,
) -> Option<ProgressLayout> {
    let inner = (BORDER_MARGIN + BORDER_WIDTH) * 2;
    if (title_height as i32) + 5 > i32::MAX || height < title_height + 5 || (height as i32) - BAR_HEIGHT
        - inner < i32::MIN || (elapsed_secs as u16) + total_time_left > u16::MAX || width < inner {
        None
    } else {
        Some(
            ProgressLayout {
                text_area_y: ((title_height as i32) + 5) as i32,
                text_area_width: TEXT_AREA_WIDTH,
                text_area_height: (height - title_height - 5) as u32,
                border_y: ((height as i32) - BAR_HEIGHT - inner) as i32,
                border_width: width,
                border_height: (BAR_HEIGHT + inner) as u32,
                bar_x: (BORDER_WIDTH + BORDER_MARGIN) as i32,
                bar_y: ((height as i32) - BORDER_WIDTH - BORDER_MARGIN - BAR_HEIGHT) as i32,
                bar_track_width: (width - inner) as u32,
                bar_height: BAR_HEIGHT as u32,
                progress_denominator: ((elapsed_secs as u16) + total_time_left) as u16,
            },
        )
    }
}

/// Lays out the progress screen (see `progress_layout_spec`): the lines of text go below
/// the title, the bar's border takes the bottom `BAR_HEIGHT + 4` lines over the whole
/// width, and the bar sits inside it, 2 pixels in.
pub fn progress_layout(
    width: u32,
    height: u32,
    title_height: u32,
    elapsed_secs: u64,
    total_time_left: u16,
) -> (layout: Option<ProgressLayout>)
    ensures
        layout == progress_layout_spec(width, height, title_height, elapsed_secs, total_time_left),
{
    let inner: i32 = (BORDER_MARGIN + BORDER_WIDTH) * 2;
    let title = title_height as i32;
    if title > i32::MAX - 5 {
        return None;
    }
    if height < 5 || height - 5 < title_height {
        return None;
    }
    let h = height as i32;
    if h < i32::MIN + BAR_HEIGHT + inner {
        return None;
    }
    let elapsed = elapsed_secs as u16;
    if elapsed as u32 + total_time_left as u32 > u16::MAX as u32 {
        return None;
    }
    if width < inner as u32 {
        return None;
    }
    Some(
        ProgressLayout {
            text_area_y: title + 5,
            text_area_width: TEXT_AREA_WIDTH,
            text_area_height: height - title_height - 5,
            border_y: h - BAR_HEIGHT - inner,
            border_width: width,
            border_height: (BAR_HEIGHT + inner) as u32,
            bar_x: BORDER_WIDTH + BORDER_MARGIN,
            bar_y: h - BORDER_WIDTH - BORDER_MARGIN - BAR_HEIGHT,
            bar_track_width: width - inner as u32,
            bar_height: BAR_HEIGHT as u32,
            progress_denominator: elapsed + total_time_left,
        },
    )
}

/// The progress bar lies inside its border: it starts below the border's top line and
/// ends above its bottom line, and its track is narrower than the border.
pub proof fn law_bar_inside_border(
    width: u32,
    height: u32,
    title_height: u32,
    elapsed_secs: u64,
    total_time_left: u16,
)
    requires
        progress_layout_spec(width, height, title_height, elapsed_secs, total_time_left) is Some,
    ensures
        ({
            let l = progress_layout_spec(width, height, title_height, elapsed_secs, total_time_left)->0;
            &&& l.border_y < l.bar_y
            &&& l.bar_y + l.bar_height < l.border_y + l.border_height
            &&& l.bar_x > 0
            &&& l.bar_x + l.bar_track_width < l.border_width
        }),
{
}

} // verus!

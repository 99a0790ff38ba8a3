use vstd::prelude::*;
use crate::capability::SupportedFunctions;
use crate::text::chars_of;

verus! {

/// `needle` occurs in `hay` as a contiguous run.
pub open spec fn has_infix(hay: Seq<char>, needle: Seq<char>) -> bool {
    exists|i: int| 0 <= i && i + needle.len() <= hay.len() && #[trigger] hay.subrange(i, i + needle.len()) == needle
}

fn matches_at(hay: &Vec<char>, needle: &Vec<char>, i: usize) -> (r: bool)
    requires
        i + needle@.len() <= hay@.len(),
    ensures
        r == (hay@.subrange(i as int, i + needle@.len()) == needle@),
{
    let n = hay.len();
    let mut k: usize = 0;
    while k < needle.len()
        invariant
            n == hay@.len(),
            i + needle@.len() <= hay@.len(),
            0 <= k <= needle@.len(),
            forall|j: int| 0 <= j < k ==> hay@[i + j] == needle@[j],
        decreases needle@.len() - k,
    {
        if hay[i + k] != needle[k] {
            assert(hay@.subrange(i as int, i + needle@.len())[k as int] != needle@[k as int]);
            return false;
        }
        k = k + 1;
    }
    assert(hay@.subrange(i as int, i + needle@.len()) =~= needle@);
    true
}

/// Whether `needle` occurs in `hay`.
pub fn contains_text(hay: &Vec<char>, needle: &Vec<char>) -> (r: bool)
    ensures
        r == has_infix(hay@, needle@),
{
    if needle.len() == 0 {
        assert(hay@.subrange(0int, 0int + needle@.len()) =~= needle@);
        return true;
    }
    if needle.len() > hay.len() {
        return false;
    }
    let n = hay.len();
    let last: usize = n - needle.len();
    let mut i: usize = 0;
    while i <= last
        invariant
            n == hay@.len(),
            last + needle@.len() == hay@.len(),
            needle@.len() > 0,
            0 <= i <= last + 1,
            forall|j: int| 0 <= j < i ==> #[trigger] hay@.subrange(j, j + needle@.len()) != needle@,
        decreases last + 1 - i,
    {
        if matches_at(hay, needle, i) {
            return true;
        }
        i = i + 1;
    }
    false
}

/// Whether an option line of the usage text applies to this machine: the
/// fan mode and charge limit options only where they are supported.
pub open spec fn option_line_shown(line: Seq<char>, s: SupportedFunctions) -> bool {
    &&& !(has_infix(line, "--fan-mode"@) && !s.fan_cpu_ctrl.stock_fan_modes)
    &&& !(has_infix(line, "--chg-limit"@) && !s.charge_level_set)
}

/// Whether a command line of the usage text applies to this machine.
pub open spec fn command_line_shown(line: Seq<char>, s: SupportedFunctions) -> bool {
    &&& !(has_infix(line, "profile"@) && !s.fan_cpu_ctrl.stock_fan_modes && !s.fan_cpu_ctrl.fan_curve_set)
    &&& !(has_infix(line, "led-mode"@) && !s.keyboard_led.rgb_mode_set)
    &&& !(has_infix(line, "bios"@) && (!s.rog_bios_ctrl.dedicated_gfx_toggle
        || !s.rog_bios_ctrl.post_sound_toggle))
    &&& !(has_infix(line, "anime"@) && !s.anime_ctrl)
}

pub fn option_shown(line: &str, s: &SupportedFunctions) -> (r: bool)
    ensures
        r == option_line_shown(line@, *s),
{
    let l = chars_of(line);
    if contains_text(&l, &chars_of("--fan-mode")) && !s.fan_cpu_ctrl.stock_fan_modes {
        return false;
    }
    if contains_text(&l, &chars_of("--chg-limit")) && !s.charge_level_set {
        return false;
    }
    true
}

pub fn command_shown(line: &str, s: &SupportedFunctions) -> (r: bool)
    ensures
        r == command_line_shown(line@, *s),
{
    let l = chars_of(line);
    if contains_text(&l, &chars_of("profile")) && !s.fan_cpu_ctrl.stock_fan_modes
        && !s.fan_cpu_ctrl.fan_curve_set {
        return false;
    }
    if contains_text(&l, &chars_of("led-mode")) && !s.keyboard_led.rgb_mode_set {
        return false;
    }
    if contains_text(&l, &chars_of("bios")) && (!s.rog_bios_ctrl.dedicated_gfx_toggle
        || !s.rog_bios_ctrl.post_sound_toggle) {
        return false;
    }
    if contains_text(&l, &chars_of("anime")) && !s.anime_ctrl {
        return false;
    }
    true
}

/// The lines of `lines` kept by `keep`, in order.
pub open spec fn kept(lines: Seq<String>, s: SupportedFunctions, commands: bool) -> Seq<String>
    decreases lines.len(),
{
    if lines.len() == 0 {
        Seq::empty()
    } else {
        let rest = kept(lines.drop_last(), s, commands);
        let l = lines.last();
        if (if commands { command_line_shown(l@, s) } else { option_line_shown(l@, s) }) {
            rest.push(l)
        } else {
            rest
        }
    }
}

/// The help lines that apply to this machine: option lines when `commands`
/// is false, command lines when it is true.
pub fn supported_help_lines(lines: &Vec<String>, s: &SupportedFunctions, commands: bool) -> (r: Vec<String>)
    ensures
        r@ == kept(lines@, *s, commands),
{
    let mut out: Vec<String> = Vec::new();
    let mut i: usize = 0;
    while i < lines.len()
        invariant
            0 <= i <= lines@.len(),
            out@ == kept(lines@.subrange(0, i as int), *s, commands),
        decreases lines@.len() - i,
    {
        let shown = if commands {
            command_shown(lines[i].as_str(), s)
        } else {
            option_shown(lines[i].as_str(), s)
        };
        assert(lines@.subrange(0, i + 1).drop_last() =~= lines@.subrange(0, i as int));
        if shown {
            out.push(lines[i].clone());
        }
        i = i + 1;
    }
    assert(lines@.subrange(0, lines@.len() as int) =~= lines@);
    out
}

/// The entries of `commands` whose position, taken as a mode byte, is one
/// of the keyboard's stock modes, in order.
pub open spec fn led_modes_kept(commands: Seq<String>, modes: Seq<u8>) -> Seq<String>
    decreases commands.len(),
{
    if commands.len() == 0 {
        Seq::empty()
    } else {
        let rest = led_modes_kept(commands.drop_last(), modes);
        if modes.contains(((commands.len() - 1) % 256) as u8) {
            rest.push(commands.last())
        } else {
            rest
        }
    }
}

/// The LED mode commands that this keyboard supports; none where the
/// keyboard reports no stock modes.
pub fn supported_led_mode_lines(commands: &Vec<String>, stock_modes: &Option<Vec<u8>>) -> (r: Vec<String>)
    ensures
        r@ == (match stock_modes {
            Some(m) => led_modes_kept(commands@, m@),
            None => Seq::empty(),
        }),
{
    let modes = match stock_modes {
        Some(m) => m,
        None => return Vec::new(),
    };
    let mut out: Vec<String> = Vec::new();
    let mut i: usize = 0;
    while i < commands.len()
        invariant
            0 <= i <= commands@.len(),
            out@ == led_modes_kept(commands@.subrange(0, i as int), modes@),
        decreases commands@.len() - i,
    {
        let b: u8 = (i % 256) as u8;
        let mut found = false;
        let mut k: usize = 0;
        while k < modes.len()
            invariant
                0 <= k <= modes@.len(),
                found == exists|j: int| 0 <= j < k && modes@[j] == b,
            decreases modes@.len() - k,
        {
            if modes[k] == b {
                found = true;
            }
            k = k + 1;
        }
        proof {
            let pre = commands@.subrange(0, i + 1);
            assert(pre.drop_last() =~= commands@.subrange(0, i as int));
            if found {
                let j = choose|j: int| 0 <= j < modes@.len() && modes@[j] == b;
                assert(modes@[j] == b);
            }
        }
        if found {
            out.push(commands[i].clone());
        }
        i = i + 1;
    }
    assert(commands@.subrange(0, commands@.len() as int) =~= commands@);
    out
}

/// A graphics mode change goes ahead on a `Y` or `y` answer, or without
/// asking when confirmation was waived.
pub fn gfx_change_confirmed(answer: Option<char>, no_confirm: bool) -> (r: bool)
    ensures
        r == (no_confirm || answer == Some('Y') || answer == Some('y')),
{
    match answer {
        Some(c) => c == 'Y' || c == 'y' || no_confirm,
        None => no_confirm,
    }
}

} // verus!

//! The GNOME Shell scripts that carry out each window action.
//!
//! Each script is fixed text with the action's arguments written into it:
//! window ids (decimal digits only) and snap positions (`left` or `right`)
//! as given, numbers in decimal.

use vstd::prelude::*;

use crate::decimal::{
    digit_char, digit_value, digits_value, i32_to_decimal, int_decimal, is_digit, lemma_decimal_denotes_number,
    nat_decimal, pow10,
};
use crate::text::{chars_of, contains_text, lemma_contains_middle};

verus! {

/// The largest integer that a JavaScript number holds exactly, 2^53 - 1.
pub open spec fn max_exact_js_integer() -> nat {
    9007199254740991
}

/// Whether `text` is a window id as the scripts can name it: the decimal
/// digits of a number that a JavaScript number holds exactly, without
/// leading zeros (a script reads `010` as octal, or refuses it, and so never
/// as window 10). Only such a text is written into a script as a window id.
pub open spec fn is_window_id(text: Seq<char>) -> bool {
    &&& text.len() >= 1
    &&& forall|i: int| 0 <= i < text.len() ==> is_digit(#[trigger] text[i])
    &&& (text[0] == '0' ==> text.len() == 1)
    &&& digits_value(text) <= max_exact_js_integer()
}

/// Whether `text` names a half of the work area to snap to. Only such a text
/// is written into the snap script.
pub open spec fn is_snap_position(text: Seq<char>) -> bool {
    text == "left"@ || text == "right"@
}

proof fn lemma_digits_value_bound(text: Seq<char>)
    requires
        forall|i: int| 0 <= i < text.len() ==> is_digit(#[trigger] text[i]),
    ensures
        digits_value(text) < pow10(text.len()),
    decreases text.len(),
{
    if text.len() > 0 {
        assert(is_digit(text[text.len() - 1]));
        lemma_digits_value_bound(text.drop_last());
    }
}

proof fn lemma_pow10_16()
    ensures
        pow10(16) == 10000000000000000,
{
    reveal_with_fuel(pow10, 17);
}

proof fn lemma_pow10_monotonic(m: nat, n: nat)
    requires
        m <= n,
    ensures
        pow10(m) <= pow10(n),
    decreases n,
{
    if m < n {
        lemma_pow10_monotonic(m, (n - 1) as nat);
    }
}

proof fn lemma_digits_value_at_least(text: Seq<char>)
    requires
        text.len() >= 1,
        text[0] != '0',
        forall|i: int| 0 <= i < text.len() ==> is_digit(#[trigger] text[i]),
    ensures
        digits_value(text) >= pow10((text.len() - 1) as nat),
    decreases text.len(),
{
    if text.len() > 1 {
        let rest = text.drop_last();
        assert(rest[0] == text[0]);
        assert forall|i: int| 0 <= i < rest.len() implies is_digit(#[trigger] rest[i]) by {
            assert(rest[i] == text[i]);
        }
        lemma_digits_value_at_least(rest);
    } else {
        assert(text.drop_last().len() == 0);
        assert(is_digit(text[0]));
    }
}

proof fn lemma_digit_char_of_value(c: char)
    requires
        is_digit(c),
    ensures
        digit_char(digit_value(c)) == c,
{
}

/// The window ids are exactly the decimal texts of the numbers from 0 to
/// 2^53 - 1: the decimal text of such a number is a window id, and a window
/// id is the decimal text of the number it denotes.
pub proof fn lemma_window_ids_are_decimal_numbers(text: Seq<char>, n: nat)
    ensures
        is_window_id(nat_decimal(n)) <==> n <= max_exact_js_integer(),
        is_window_id(text) ==> text == nat_decimal(digits_value(text)),
{
    lemma_decimal_denotes_number(n);
    if is_window_id(text) {
        lemma_window_id_is_canonical(text);
    }
}

proof fn lemma_window_id_is_canonical(text: Seq<char>)
    requires
        text.len() >= 1,
        forall|i: int| 0 <= i < text.len() ==> is_digit(#[trigger] text[i]),
        text[0] == '0' ==> text.len() == 1,
    ensures
        text == nat_decimal(digits_value(text)),
    decreases text.len(),
{
    let last = text.last();
    assert(is_digit(text[text.len() - 1]));
    lemma_digit_char_of_value(last);
    if text.len() == 1 {
        assert(text.drop_last() =~= Seq::<char>::empty());
        assert(digits_value(Seq::<char>::empty()) == 0);
        assert(digits_value(text) == digit_value(last));
        assert(text =~= seq![digit_char(digit_value(last))]);
    } else {
        let rest = text.drop_last();
        assert(rest[0] == text[0]);
        assert forall|i: int| 0 <= i < rest.len() implies is_digit(#[trigger] rest[i]) by {
            assert(rest[i] == text[i]);
        }
        lemma_window_id_is_canonical(rest);
        lemma_digits_value_at_least(rest);
        let v = digits_value(rest);
        let d = digit_value(last);
        assert(v >= 1) by {
            assert(pow10((rest.len() - 1) as nat) >= 1) by {
                lemma_pow10_monotonic(0, (rest.len() - 1) as nat);
            }
        }
        assert(digits_value(text) == v * 10 + d);
        assert((v * 10 + d) / 10 == v);
        assert((v * 10 + d) % 10 == d);
        assert(text =~= nat_decimal(v).push(digit_char(d)));
    }
}

/// Whether a text is a window id.
pub fn window_id_is_valid(text: &str) -> (r: bool)
    ensures
        r == is_window_id(text@),
{
    let chars = chars_of(text);
    let n = chars.len();
    if n == 0 {
        return false;
    }
    if chars[0] == '0' && n != 1 {
        return false;
    }
    if n > 16 {
        proof {
            if forall|k: int| 0 <= k < text@.len() ==> is_digit(#[trigger] text@[k]) {
                lemma_digits_value_at_least(text@);
                lemma_pow10_monotonic(16, (n - 1) as nat);
                lemma_pow10_16();
            }
        }
        return false;
    }
    let mut value: u64 = 0;
    for i in 0..n
        invariant
            n == chars.len(),
            n <= 16,
            chars@ == text@,
            forall|k: int| 0 <= k < i ==> is_digit(#[trigger] text@[k]),
            value == digits_value(text@.take(i as int)),
            value < pow10(i as nat),
    {
        if chars[i] < '0' || chars[i] > '9' {
            return false;
        }
        proof {
            let t = text@.take(i + 1);
            assert(t.drop_last() =~= text@.take(i as int));
            lemma_pow10_monotonic((i + 1) as nat, 16);
            lemma_pow10_16();
        }
        value = value * 10 + (chars[i] as u64 - '0' as u64);
    }
    assert(text@.take(n as int) =~= text@);
    value <= 9007199254740991
}

/// The GNOME Shell script that lists the normal (non-taskbar-skipping) windows as a JSON array of their id, title, class, workspace and state.
pub open spec fn spec_list_windows_script() -> Seq<char> {
    "
        function isMaximized(w) {
            if (typeof w.get_maximized === 'function') {
                return Boolean(w.get_maximized());
            }

            return Boolean(w.maximized_horizontally && w.maximized_vertically);
        }

        let windows = global.get_window_actors()
            .map(w => w.get_meta_window())
            "@
        + ".filter(w => w.get_window_type() === Meta.WindowType.NORMAL && !w.is_skip_taskbar())"@
        + "
            .map(w => ({
                id: w.get_id(),
                title: w.get_title(),
                wm_class: w.get_wm_class(),
                workspace: w.get_workspace().index(),
                minimized: w.minimized,
                maximized: isMaximized(w),
                focused: w.has_focus()
            }));
        "@
        + "JSON.stringify(windows);"@
        + "
    "@
}

/// Builds the script that lists the normal (non-taskbar-skipping) windows as a JSON array of their id, title, class, workspace and state.
pub fn list_windows_script() -> (r: String)
    ensures
        r@ == spec_list_windows_script(),
{
    let mut s = String::from_str("
        function isMaximized(w) {
            if (typeof w.get_maximized === 'function') {
                return Boolean(w.get_maximized());
            }

            return Boolean(w.maximized_horizontally && w.maximized_vertically);
        }

        let windows = global.get_window_actors()
            .map(w => w.get_meta_window())
            ");
    s.append(".filter(w => w.get_window_type() === Meta.WindowType.NORMAL && !w.is_skip_taskbar())");
    s.append("
            .map(w => ({
                id: w.get_id(),
                title: w.get_title(),
                wm_class: w.get_wm_class(),
                workspace: w.get_workspace().index(),
                minimized: w.minimized,
                maximized: isMaximized(w),
                focused: w.has_focus()
            }));
        ");
    s.append("JSON.stringify(windows);");
    s.append("
    ");
    s
}

/// The script runs over the normal windows and gives them as JSON.
#[verifier::spinoff_prover]
#[verifier::rlimit(50)]
pub proof fn lemma_list_windows_script_does_its_action()
    ensures
        contains_text(spec_list_windows_script(), (".filter(w => w.get_window_type() === Meta.WindowType.NORMAL && !w.is_skip_taskbar())"@)),
        contains_text(spec_list_windows_script(), ("JSON.stringify(windows);"@)),
{
    assert(contains_text(spec_list_windows_script(), (".filter(w => w.get_window_type() === Meta.WindowType.NORMAL && !w.is_skip_taskbar())"@))) by {
        lemma_contains_middle(("
        function isMaximized(w) {
            if (typeof w.get_maximized === 'function') {
                return Boolean(w.get_maximized());
            }

            return Boolean(w.maximized_horizontally && w.maximized_vertically);
        }

        let windows = global.get_window_actors()
            .map(w => w.get_meta_window())
            "@), (".filter(w => w.get_window_type() === Meta.WindowType.NORMAL && !w.is_skip_taskbar())"@), ("
            .map(w => ({
                id: w.get_id(),
                title: w.get_title(),
                wm_class: w.get_wm_class(),
                workspace: w.get_workspace().index(),
                minimized: w.minimized,
                maximized: isMaximized(w),
                focused: w.has_focus()
            }));
        "@ + "JSON.stringify(windows);"@ + "
    "@));
        assert(spec_list_windows_script() =~= ("
        function isMaximized(w) {
            if (typeof w.get_maximized === 'function') {
                return Boolean(w.get_maximized());
            }

            return Boolean(w.maximized_horizontally && w.maximized_vertically);
        }

        let windows = global.get_window_actors()
            .map(w => w.get_meta_window())
            "@) + (".filter(w => w.get_window_type() === Meta.WindowType.NORMAL && !w.is_skip_taskbar())"@) + ("
            .map(w => ({
                id: w.get_id(),
                title: w.get_title(),
                wm_class: w.get_wm_class(),
                workspace: w.get_workspace().index(),
                minimized: w.minimized,
                maximized: isMaximized(w),
                focused: w.has_focus()
            }));
        "@ + "JSON.stringify(windows);"@ + "
    "@));
    }
    assert(contains_text(spec_list_windows_script(), ("JSON.stringify(windows);"@))) by {
        lemma_contains_middle(("
        function isMaximized(w) {
            if (typeof w.get_maximized === 'function') {
                return Boolean(w.get_maximized());
            }

            return Boolean(w.maximized_horizontally && w.maximized_vertically);
        }

        let windows = global.get_window_actors()
            .map(w => w.get_meta_window())
            "@ + ".filter(w => w.get_window_type() === Meta.WindowType.NORMAL && !w.is_skip_taskbar())"@ + "
            .map(w => ({
                id: w.get_id(),
                title: w.get_title(),
                wm_class: w.get_wm_class(),
                workspace: w.get_workspace().index(),
                minimized: w.minimized,
                maximized: isMaximized(w),
                focused: w.has_focus()
            }));
        "@), ("JSON.stringify(windows);"@), ("
    "@));
        assert(spec_list_windows_script() =~= ("
        function isMaximized(w) {
            if (typeof w.get_maximized === 'function') {
                return Boolean(w.get_maximized());
            }

            return Boolean(w.maximized_horizontally && w.maximized_vertically);
        }

        let windows = global.get_window_actors()
            .map(w => w.get_meta_window())
            "@ + ".filter(w => w.get_window_type() === Meta.WindowType.NORMAL && !w.is_skip_taskbar())"@ + "
            .map(w => ({
                id: w.get_id(),
                title: w.get_title(),
                wm_class: w.get_wm_class(),
                workspace: w.get_workspace().index(),
                minimized: w.minimized,
                maximized: isMaximized(w),
                focused: w.has_focus()
            }));
        "@) + ("JSON.stringify(windows);"@) + ("
    "@));
    }
}

/// The GNOME Shell script that activates the window with the given id.
pub open spec fn spec_focus_window_script(window_id: Seq<char>) -> Seq<char> {
    "
        let windows = global.get_window_actors()
            .map(w => w.get_meta_window())
            "@
        + ".filter(w => w.get_id() === "@
        + window_id
        + ");"@
        + "
        if (windows.length > 0) {
            let window = windows[0];
            "@
        + "window.activate(global.get_current_time());"@
        + "
            "@
        + "'focused';"@
        + "
        } else {
            'window not found';
        }
    "@
}

/// Builds the script that activates the window with the given id.
pub fn focus_window_script(window_id: &str) -> (r: String)
    requires
        is_window_id(window_id@),
    ensures
        r@ == spec_focus_window_script(window_id@),
{
    let mut s = String::from_str("
        let windows = global.get_window_actors()
            .map(w => w.get_meta_window())
            ");
    s.append(".filter(w => w.get_id() === ");
    s.append(window_id);
    s.append(");");
    s.append("
        if (windows.length > 0) {
            let window = windows[0];
            ");
    s.append("window.activate(global.get_current_time());");
    s.append("
            ");
    s.append("'focused';");
    s.append("
        } else {
            'window not found';
        }
    ");
    s
}

/// The script picks the window with the given id and activates it.
#[verifier::spinoff_prover]
#[verifier::rlimit(50)]
pub proof fn lemma_focus_window_script_does_its_action(window_id: Seq<char>)
    ensures
        contains_text(spec_focus_window_script(window_id), (".filter(w => w.get_id() === "@ + window_id + ");"@)),
        contains_text(spec_focus_window_script(window_id), ("window.activate(global.get_current_time());"@)),
        contains_text(spec_focus_window_script(window_id), ("'focused';"@)),
{
    assert(contains_text(spec_focus_window_script(window_id), (".filter(w => w.get_id() === "@ + window_id + ");"@))) by {
        lemma_contains_middle(("
        let windows = global.get_window_actors()
            .map(w => w.get_meta_window())
            "@), (".filter(w => w.get_id() === "@ + window_id + ");"@), ("
        if (windows.length > 0) {
            let window = windows[0];
            "@ + "window.activate(global.get_current_time());"@ + "
            "@ + "'focused';"@ + "
        } else {
            'window not found';
        }
    "@));
        assert(spec_focus_window_script(window_id) =~= ("
        let windows = global.get_window_actors()
            .map(w => w.get_meta_window())
            "@) + (".filter(w => w.get_id() === "@ + window_id + ");"@) + ("
        if (windows.length > 0) {
            let window = windows[0];
            "@ + "window.activate(global.get_current_time());"@ + "
            "@ + "'focused';"@ + "
        } else {
            'window not found';
        }
    "@));
    }
    assert(contains_text(spec_focus_window_script(window_id), ("window.activate(global.get_current_time());"@))) by {
        lemma_contains_middle(("
        let windows = global.get_window_actors()
            .map(w => w.get_meta_window())
            "@ + ".filter(w => w.get_id() === "@ + window_id + ");"@ + "
        if (windows.length > 0) {
            let window = windows[0];
            "@), ("window.activate(global.get_current_time());"@), ("
            "@ + "'focused';"@ + "
        } else {
            'window not found';
        }
    "@));
        assert(spec_focus_window_script(window_id) =~= ("
        let windows = global.get_window_actors()
            .map(w => w.get_meta_window())
            "@ + ".filter(w => w.get_id() === "@ + window_id + ");"@ + "
        if (windows.length > 0) {
            let window = windows[0];
            "@) + ("window.activate(global.get_current_time());"@) + ("
            "@ + "'focused';"@ + "
        } else {
            'window not found';
        }
    "@));
    }
    assert(contains_text(spec_focus_window_script(window_id), ("'focused';"@))) by {
        lemma_contains_middle(("
        let windows = global.get_window_actors()
            .map(w => w.get_meta_window())
            "@ + ".filter(w => w.get_id() === "@ + window_id + ");"@ + "
        if (windows.length > 0) {
            let window = windows[0];
            "@ + "window.activate(global.get_current_time());"@ + "
            "@), ("'focused';"@), ("
        } else {
            'window not found';
        }
    "@));
        assert(spec_focus_window_script(window_id) =~= ("
        let windows = global.get_window_actors()
            .map(w => w.get_meta_window())
            "@ + ".filter(w => w.get_id() === "@ + window_id + ");"@ + "
        if (windows.length > 0) {
            let window = windows[0];
            "@ + "window.activate(global.get_current_time());"@ + "
            "@) + ("'focused';"@) + ("
        } else {
            'window not found';
        }
    "@));
    }
}

/// The GNOME Shell script that closes the window with the given id.
pub open spec fn spec_close_window_script(window_id: Seq<char>) -> Seq<char> {
    "
        let windows = global.get_window_actors()
            .map(w => w.get_meta_window())
            "@
        + ".filter(w => w.get_id() === "@
        + window_id
        + ");"@
        + "
        if (windows.length > 0) {
            let window = windows[0];
            "@
        + "window.delete(global.get_current_time());"@
        + "
            "@
        + "'closed';"@
        + "
        } else {
            'window not found';
        }
    "@
}

/// Builds the script that closes the window with the given id.
pub fn close_window_script(window_id: &str) -> (r: String)
    requires
        is_window_id(window_id@),
    ensures
        r@ == spec_close_window_script(window_id@),
{
    let mut s = String::from_str("
        let windows = global.get_window_actors()
            .map(w => w.get_meta_window())
            ");
    s.append(".filter(w => w.get_id() === ");
    s.append(window_id);
    s.append(");");
    s.append("
        if (windows.length > 0) {
            let window = windows[0];
            ");
    s.append("window.delete(global.get_current_time());");
    s.append("
            ");
    s.append("'closed';");
    s.append("
        } else {
            'window not found';
        }
    ");
    s
}

/// The script picks the window with the given id and closes it.
#[verifier::spinoff_prover]
#[verifier::rlimit(50)]
pub proof fn lemma_close_window_script_does_its_action(window_id: Seq<char>)
    ensures
        contains_text(spec_close_window_script(window_id), (".filter(w => w.get_id() === "@ + window_id + ");"@)),
        contains_text(spec_close_window_script(window_id), ("window.delete(global.get_current_time());"@)),
        contains_text(spec_close_window_script(window_id), ("'closed';"@)),
{
    assert(contains_text(spec_close_window_script(window_id), (".filter(w => w.get_id() === "@ + window_id + ");"@))) by {
        lemma_contains_middle(("
        let windows = global.get_window_actors()
            .map(w => w.get_meta_window())
            "@), (".filter(w => w.get_id() === "@ + window_id + ");"@), ("
        if (windows.length > 0) {
            let window = windows[0];
            "@ + "window.delete(global.get_current_time());"@ + "
            "@ + "'closed';"@ + "
        } else {
            'window not found';
        }
    "@));
        assert(spec_close_window_script(window_id) =~= ("
        let windows = global.get_window_actors()
            .map(w => w.get_meta_window())
            "@) + (".filter(w => w.get_id() === "@ + window_id + ");"@) + ("
        if (windows.length > 0) {
            let window = windows[0];
            "@ + "window.delete(global.get_current_time());"@ + "
            "@ + "'closed';"@ + "
        } else {
            'window not found';
        }
    "@));
    }
    assert(contains_text(spec_close_window_script(window_id), ("window.delete(global.get_current_time());"@))) by {
        lemma_contains_middle(("
        let windows = global.get_window_actors()
            .map(w => w.get_meta_window())
            "@ + ".filter(w => w.get_id() === "@ + window_id + ");"@ + "
        if (windows.length > 0) {
            let window = windows[0];
            "@), ("window.delete(global.get_current_time());"@), ("
            "@ + "'closed';"@ + "
        } else {
            'window not found';
        }
    "@));
        assert(spec_close_window_script(window_id) =~= ("
        let windows = global.get_window_actors()
            .map(w => w.get_meta_window())
            "@ + ".filter(w => w.get_id() === "@ + window_id + ");"@ + "
        if (windows.length > 0) {
            let window = windows[0];
            "@) + ("window.delete(global.get_current_time());"@) + ("
            "@ + "'closed';"@ + "
        } else {
            'window not found';
        }
    "@));
    }
    assert(contains_text(spec_close_window_script(window_id), ("'closed';"@))) by {
        lemma_contains_middle(("
        let windows = global.get_window_actors()
            .map(w => w.get_meta_window())
            "@ + ".filter(w => w.get_id() === "@ + window_id + ");"@ + "
        if (windows.length > 0) {
            let window = windows[0];
            "@ + "window.delete(global.get_current_time());"@ + "
            "@), ("'closed';"@), ("
        } else {
            'window not found';
        }
    "@));
        assert(spec_close_window_script(window_id) =~= ("
        let windows = global.get_window_actors()
            .map(w => w.get_meta_window())
            "@ + ".filter(w => w.get_id() === "@ + window_id + ");"@ + "
        if (windows.length > 0) {
            let window = windows[0];
            "@ + "window.delete(global.get_current_time());"@ + "
            "@) + ("'closed';"@) + ("
        } else {
            'window not found';
        }
    "@));
    }
}

/// The GNOME Shell script that minimizes the window with the given id.
pub open spec fn spec_minimize_window_script(window_id: Seq<char>) -> Seq<char> {
    "
        let windows = global.get_window_actors()
            .map(w => w.get_meta_window())
            "@
        + ".filter(w => w.get_id() === "@
        + window_id
        + ");"@
        + "
        if (windows.length > 0) {
            let window = windows[0];
            "@
        + "window.minimize();"@
        + "
            "@
        + "'minimized';"@
        + "
        } else {
            'window not found';
        }
    "@
}

/// Builds the script that minimizes the window with the given id.
pub fn minimize_window_script(window_id: &str) -> (r: String)
    requires
        is_window_id(window_id@),
    ensures
        r@ == spec_minimize_window_script(window_id@),
{
    let mut s = String::from_str("
        let windows = global.get_window_actors()
            .map(w => w.get_meta_window())
            ");
    s.append(".filter(w => w.get_id() === ");
    s.append(window_id);
    s.append(");");
    s.append("
        if (windows.length > 0) {
            let window = windows[0];
            ");
    s.append("window.minimize();");
    s.append("
            ");
    s.append("'minimized';");
    s.append("
        } else {
            'window not found';
        }
    ");
    s
}

/// The script picks the window with the given id and minimizes it.
#[verifier::spinoff_prover]
#[verifier::rlimit(50)]
pub proof fn lemma_minimize_window_script_does_its_action(window_id: Seq<char>)
    ensures
        contains_text(spec_minimize_window_script(window_id), (".filter(w => w.get_id() === "@ + window_id + ");"@)),
        contains_text(spec_minimize_window_script(window_id), ("window.minimize();"@)),
        contains_text(spec_minimize_window_script(window_id), ("'minimized';"@)),
{
    assert(contains_text(spec_minimize_window_script(window_id), (".filter(w => w.get_id() === "@ + window_id + ");"@))) by {
        lemma_contains_middle(("
        let windows = global.get_window_actors()
            .map(w => w.get_meta_window())
            "@), (".filter(w => w.get_id() === "@ + window_id + ");"@), ("
        if (windows.length > 0) {
            let window = windows[0];
            "@ + "window.minimize();"@ + "
            "@ + "'minimized';"@ + "
        } else {
            'window not found';
        }
    "@));
        assert(spec_minimize_window_script(window_id) =~= ("
        let windows = global.get_window_actors()
            .map(w => w.get_meta_window())
            "@) + (".filter(w => w.get_id() === "@ + window_id + ");"@) + ("
        if (windows.length > 0) {
            let window = windows[0];
            "@ + "window.minimize();"@ + "
            "@ + "'minimized';"@ + "
        } else {
            'window not found';
        }
    "@));
    }
    assert(contains_text(spec_minimize_window_script(window_id), ("window.minimize();"@))) by {
        lemma_contains_middle(("
        let windows = global.get_window_actors()
            .map(w => w.get_meta_window())
            "@ + ".filter(w => w.get_id() === "@ + window_id + ");"@ + "
        if (windows.length > 0) {
            let window = windows[0];
            "@), ("window.minimize();"@), ("
            "@ + "'minimized';"@ + "
        } else {
            'window not found';
        }
    "@));
        assert(spec_minimize_window_script(window_id) =~= ("
        let windows = global.get_window_actors()
            .map(w => w.get_meta_window())
            "@ + ".filter(w => w.get_id() === "@ + window_id + ");"@ + "
        if (windows.length > 0) {
            let window = windows[0];
            "@) + ("window.minimize();"@) + ("
            "@ + "'minimized';"@ + "
        } else {
            'window not found';
        }
    "@));
    }
    assert(contains_text(spec_minimize_window_script(window_id), ("'minimized';"@))) by {
        lemma_contains_middle(("
        let windows = global.get_window_actors()
            .map(w => w.get_meta_window())
            "@ + ".filter(w => w.get_id() === "@ + window_id + ");"@ + "
        if (windows.length > 0) {
            let window = windows[0];
            "@ + "window.minimize();"@ + "
            "@), ("'minimized';"@), ("
        } else {
            'window not found';
        }
    "@));
        assert(spec_minimize_window_script(window_id) =~= ("
        let windows = global.get_window_actors()
            .map(w => w.get_meta_window())
            "@ + ".filter(w => w.get_id() === "@ + window_id + ");"@ + "
        if (windows.length > 0) {
            let window = windows[0];
            "@ + "window.minimize();"@ + "
            "@) + ("'minimized';"@) + ("
        } else {
            'window not found';
        }
    "@));
    }
}

/// The GNOME Shell script that toggles the maximized state of the window with the given id.
pub open spec fn spec_maximize_window_script(window_id: Seq<char>) -> Seq<char> {
    "
        function isMaximized(w) {
            if (typeof w.get_maximized === 'function') {
                return Boolean(w.get_maximized());
            }

            return Boolean(w.maximized_horizontally && w.maximized_vertically);
        }

        let windows = global.get_window_actors()
            .map(w => w.get_meta_window())
            "@
        + ".filter(w => w.get_id() === "@
        + window_id
        + ");"@
        + "
        if (windows.length > 0) {
            let window = windows[0];
            if (isMaximized(window)) {
                "@
        + "window.unmaximize(Meta.MaximizeFlags.BOTH);"@
        + "
                'unmaximized';
            } else {
                "@
        + "window.maximize(Meta.MaximizeFlags.BOTH);"@
        + "
                'maximized';
            }
        } else {
            'window not found';
        }
    "@
}

/// Builds the script that toggles the maximized state of the window with the given id.
pub fn maximize_window_script(window_id: &str) -> (r: String)
    requires
        is_window_id(window_id@),
    ensures
        r@ == spec_maximize_window_script(window_id@),
{
    let mut s = String::from_str("
        function isMaximized(w) {
            if (typeof w.get_maximized === 'function') {
                return Boolean(w.get_maximized());
            }

            return Boolean(w.maximized_horizontally && w.maximized_vertically);
        }

        let windows = global.get_window_actors()
            .map(w => w.get_meta_window())
            ");
    s.append(".filter(w => w.get_id() === ");
    s.append(window_id);
    s.append(");");
    s.append("
        if (windows.length > 0) {
            let window = windows[0];
            if (isMaximized(window)) {
                ");
    s.append("window.unmaximize(Meta.MaximizeFlags.BOTH);");
    s.append("
                'unmaximized';
            } else {
                ");
    s.append("window.maximize(Meta.MaximizeFlags.BOTH);");
    s.append("
                'maximized';
            }
        } else {
            'window not found';
        }
    ");
    s
}

/// The script picks the window with the given id and toggles its maximized state.
#[verifier::spinoff_prover]
#[verifier::rlimit(50)]
pub proof fn lemma_maximize_window_script_does_its_action(window_id: Seq<char>)
    ensures
        contains_text(spec_maximize_window_script(window_id), (".filter(w => w.get_id() === "@ + window_id + ");"@)),
        contains_text(spec_maximize_window_script(window_id), ("window.unmaximize(Meta.MaximizeFlags.BOTH);"@)),
        contains_text(spec_maximize_window_script(window_id), ("window.maximize(Meta.MaximizeFlags.BOTH);"@)),
{
    assert(contains_text(spec_maximize_window_script(window_id), (".filter(w => w.get_id() === "@ + window_id + ");"@))) by {
        lemma_contains_middle(("
        function isMaximized(w) {
            if (typeof w.get_maximized === 'function') {
                return Boolean(w.get_maximized());
            }

            return Boolean(w.maximized_horizontally && w.maximized_vertically);
        }

        let windows = global.get_window_actors()
            .map(w => w.get_meta_window())
            "@), (".filter(w => w.get_id() === "@ + window_id + ");"@), ("
        if (windows.length > 0) {
            let window = windows[0];
            if (isMaximized(window)) {
                "@ + "window.unmaximize(Meta.MaximizeFlags.BOTH);"@ + "
                'unmaximized';
            } else {
                "@ + "window.maximize(Meta.MaximizeFlags.BOTH);"@ + "
                'maximized';
            }
        } else {
            'window not found';
        }
    "@));
        assert(spec_maximize_window_script(window_id) =~= ("
        function isMaximized(w) {
            if (typeof w.get_maximized === 'function') {
                return Boolean(w.get_maximized());
            }

            return Boolean(w.maximized_horizontally && w.maximized_vertically);
        }

        let windows = global.get_window_actors()
            .map(w => w.get_meta_window())
            "@) + (".filter(w => w.get_id() === "@ + window_id + ");"@) + ("
        if (windows.length > 0) {
            let window = windows[0];
            if (isMaximized(window)) {
                "@ + "window.unmaximize(Meta.MaximizeFlags.BOTH);"@ + "
                'unmaximized';
            } else {
                "@ + "window.maximize(Meta.MaximizeFlags.BOTH);"@ + "
                'maximized';
            }
        } else {
            'window not found';
        }
    "@));
    }
    assert(contains_text(spec_maximize_window_script(window_id), ("window.unmaximize(Meta.MaximizeFlags.BOTH);"@))) by {
        lemma_contains_middle(("
        function isMaximized(w) {
            if (typeof w.get_maximized === 'function') {
                return Boolean(w.get_maximized());
            }

            return Boolean(w.maximized_horizontally && w.maximized_vertically);
        }

        let windows = global.get_window_actors()
            .map(w => w.get_meta_window())
            "@ + ".filter(w => w.get_id() === "@ + window_id + ");"@ + "
        if (windows.length > 0) {
            let window = windows[0];
            if (isMaximized(window)) {
                "@), ("window.unmaximize(Meta.MaximizeFlags.BOTH);"@), ("
                'unmaximized';
            } else {
                "@ + "window.maximize(Meta.MaximizeFlags.BOTH);"@ + "
                'maximized';
            }
        } else {
            'window not found';
        }
    "@));
        assert(spec_maximize_window_script(window_id) =~= ("
        function isMaximized(w) {
            if (typeof w.get_maximized === 'function') {
                return Boolean(w.get_maximized());
            }

            return Boolean(w.maximized_horizontally && w.maximized_vertically);
        }

        let windows = global.get_window_actors()
            .map(w => w.get_meta_window())
            "@ + ".filter(w => w.get_id() === "@ + window_id + ");"@ + "
        if (windows.length > 0) {
            let window = windows[0];
            if (isMaximized(window)) {
                "@) + ("window.unmaximize(Meta.MaximizeFlags.BOTH);"@) + ("
                'unmaximized';
            } else {
                "@ + "window.maximize(Meta.MaximizeFlags.BOTH);"@ + "
                'maximized';
            }
        } else {
            'window not found';
        }
    "@));
    }
    assert(contains_text(spec_maximize_window_script(window_id), ("window.maximize(Meta.MaximizeFlags.BOTH);"@))) by {
        lemma_contains_middle(("
        function isMaximized(w) {
            if (typeof w.get_maximized === 'function') {
                return Boolean(w.get_maximized());
            }

            return Boolean(w.maximized_horizontally && w.maximized_vertically);
        }

        let windows = global.get_window_actors()
            .map(w => w.get_meta_window())
            "@ + ".filter(w => w.get_id() === "@ + window_id + ");"@ + "
        if (windows.length > 0) {
            let window = windows[0];
            if (isMaximized(window)) {
                "@ + "window.unmaximize(Meta.MaximizeFlags.BOTH);"@ + "
                'unmaximized';
            } else {
                "@), ("window.maximize(Meta.MaximizeFlags.BOTH);"@), ("
                'maximized';
            }
        } else {
            'window not found';
        }
    "@));
        assert(spec_maximize_window_script(window_id) =~= ("
        function isMaximized(w) {
            if (typeof w.get_maximized === 'function') {
                return Boolean(w.get_maximized());
            }

            return Boolean(w.maximized_horizontally && w.maximized_vertically);
        }

        let windows = global.get_window_actors()
            .map(w => w.get_meta_window())
            "@ + ".filter(w => w.get_id() === "@ + window_id + ");"@ + "
        if (windows.length > 0) {
            let window = windows[0];
            if (isMaximized(window)) {
                "@ + "window.unmaximize(Meta.MaximizeFlags.BOTH);"@ + "
                'unmaximized';
            } else {
                "@) + ("window.maximize(Meta.MaximizeFlags.BOTH);"@) + ("
                'maximized';
            }
        } else {
            'window not found';
        }
    "@));
    }
}

/// The GNOME Shell script that activates the workspace with the given index.
pub open spec fn spec_switch_workspace_script(workspace_index: i32) -> Seq<char> {
    "
        let workspaceManager = global.workspace_manager;
        let workspace = workspaceManager."@
        + "get_workspace_by_index("@
        + int_decimal(workspace_index as int)
        + ");"@
        + "
        if (workspace) {
            "@
        + "workspace.activate(global.get_current_time());"@
        + "
            "@
        + "'switched to workspace "@
        + int_decimal(workspace_index as int)
        + "';"@
        + "
        } else {
            "@
        + "'workspace "@
        + int_decimal(workspace_index as int)
        + " not found';"@
        + "
        }
    "@
}

/// Builds the script that activates the workspace with the given index.
pub fn switch_workspace_script(workspace_index: i32) -> (r: String)
    ensures
        r@ == spec_switch_workspace_script(workspace_index),
{
    let mut s = String::from_str("
        let workspaceManager = global.workspace_manager;
        let workspace = workspaceManager.");
    s.append("get_workspace_by_index(");
    let workspace_index_text = i32_to_decimal(workspace_index);
    s.append(workspace_index_text.as_str());
    s.append(");");
    s.append("
        if (workspace) {
            ");
    s.append("workspace.activate(global.get_current_time());");
    s.append("
            ");
    s.append("'switched to workspace ");
    let workspace_index_text = i32_to_decimal(workspace_index);
    s.append(workspace_index_text.as_str());
    s.append("';");
    s.append("
        } else {
            ");
    s.append("'workspace ");
    let workspace_index_text = i32_to_decimal(workspace_index);
    s.append(workspace_index_text.as_str());
    s.append(" not found';");
    s.append("
        }
    ");
    s
}

/// The script activates the workspace with the given index and reports it.
#[verifier::spinoff_prover]
#[verifier::rlimit(50)]
pub proof fn lemma_switch_workspace_script_does_its_action(workspace_index: i32)
    ensures
        contains_text(spec_switch_workspace_script(workspace_index), ("get_workspace_by_index("@ + int_decimal(workspace_index as int) + ");"@)),
        contains_text(spec_switch_workspace_script(workspace_index), ("workspace.activate(global.get_current_time());"@)),
        contains_text(spec_switch_workspace_script(workspace_index), ("'switched to workspace "@ + int_decimal(workspace_index as int) + "';"@)),
        contains_text(spec_switch_workspace_script(workspace_index), ("'workspace "@ + int_decimal(workspace_index as int) + " not found';"@)),
{
    assert(contains_text(spec_switch_workspace_script(workspace_index), ("get_workspace_by_index("@ + int_decimal(workspace_index as int) + ");"@))) by {
        lemma_contains_middle(("
        let workspaceManager = global.workspace_manager;
        let workspace = workspaceManager."@), ("get_workspace_by_index("@ + int_decimal(workspace_index as int) + ");"@), ("
        if (workspace) {
            "@ + "workspace.activate(global.get_current_time());"@ + "
            "@ + "'switched to workspace "@ + int_decimal(workspace_index as int) + "';"@ + "
        } else {
            "@ + "'workspace "@ + int_decimal(workspace_index as int) + " not found';"@ + "
        }
    "@));
        assert(spec_switch_workspace_script(workspace_index) =~= ("
        let workspaceManager = global.workspace_manager;
        let workspace = workspaceManager."@) + ("get_workspace_by_index("@ + int_decimal(workspace_index as int) + ");"@) + ("
        if (workspace) {
            "@ + "workspace.activate(global.get_current_time());"@ + "
            "@ + "'switched to workspace "@ + int_decimal(workspace_index as int) + "';"@ + "
        } else {
            "@ + "'workspace "@ + int_decimal(workspace_index as int) + " not found';"@ + "
        }
    "@));
    }
    assert(contains_text(spec_switch_workspace_script(workspace_index), ("workspace.activate(global.get_current_time());"@))) by {
        lemma_contains_middle(("
        let workspaceManager = global.workspace_manager;
        let workspace = workspaceManager."@ + "get_workspace_by_index("@ + int_decimal(workspace_index as int) + ");"@ + "
        if (workspace) {
            "@), ("workspace.activate(global.get_current_time());"@), ("
            "@ + "'switched to workspace "@ + int_decimal(workspace_index as int) + "';"@ + "
        } else {
            "@ + "'workspace "@ + int_decimal(workspace_index as int) + " not found';"@ + "
        }
    "@));
        assert(spec_switch_workspace_script(workspace_index) =~= ("
        let workspaceManager = global.workspace_manager;
        let workspace = workspaceManager."@ + "get_workspace_by_index("@ + int_decimal(workspace_index as int) + ");"@ + "
        if (workspace) {
            "@) + ("workspace.activate(global.get_current_time());"@) + ("
            "@ + "'switched to workspace "@ + int_decimal(workspace_index as int) + "';"@ + "
        } else {
            "@ + "'workspace "@ + int_decimal(workspace_index as int) + " not found';"@ + "
        }
    "@));
    }
    assert(contains_text(spec_switch_workspace_script(workspace_index), ("'switched to workspace "@ + int_decimal(workspace_index as int) + "';"@))) by {
        lemma_contains_middle(("
        let workspaceManager = global.workspace_manager;
        let workspace = workspaceManager."@ + "get_workspace_by_index("@ + int_decimal(workspace_index as int) + ");"@ + "
        if (workspace) {
            "@ + "workspace.activate(global.get_current_time());"@ + "
            "@), ("'switched to workspace "@ + int_decimal(workspace_index as int) + "';"@), ("
        } else {
            "@ + "'workspace "@ + int_decimal(workspace_index as int) + " not found';"@ + "
        }
    "@));
        assert(spec_switch_workspace_script(workspace_index) =~= ("
        let workspaceManager = global.workspace_manager;
        let workspace = workspaceManager."@ + "get_workspace_by_index("@ + int_decimal(workspace_index as int) + ");"@ + "
        if (workspace) {
            "@ + "workspace.activate(global.get_current_time());"@ + "
            "@) + ("'switched to workspace "@ + int_decimal(workspace_index as int) + "';"@) + ("
        } else {
            "@ + "'workspace "@ + int_decimal(workspace_index as int) + " not found';"@ + "
        }
    "@));
    }
    assert(contains_text(spec_switch_workspace_script(workspace_index), ("'workspace "@ + int_decimal(workspace_index as int) + " not found';"@))) by {
        lemma_contains_middle(("
        let workspaceManager = global.workspace_manager;
        let workspace = workspaceManager."@ + "get_workspace_by_index("@ + int_decimal(workspace_index as int) + ");"@ + "
        if (workspace) {
            "@ + "workspace.activate(global.get_current_time());"@ + "
            "@ + "'switched to workspace "@ + int_decimal(workspace_index as int) + "';"@ + "
        } else {
            "@), ("'workspace "@ + int_decimal(workspace_index as int) + " not found';"@), ("
        }
    "@));
        assert(spec_switch_workspace_script(workspace_index) =~= ("
        let workspaceManager = global.workspace_manager;
        let workspace = workspaceManager."@ + "get_workspace_by_index("@ + int_decimal(workspace_index as int) + ");"@ + "
        if (workspace) {
            "@ + "workspace.activate(global.get_current_time());"@ + "
            "@ + "'switched to workspace "@ + int_decimal(workspace_index as int) + "';"@ + "
        } else {
            "@) + ("'workspace "@ + int_decimal(workspace_index as int) + " not found';"@) + ("
        }
    "@));
    }
}

/// The GNOME Shell script that moves the window with the given id to the workspace with the given index.
pub open spec fn spec_move_window_to_workspace_script(window_id: Seq<char>, workspace_index: i32) -> Seq<char> {
    "
        let windows = global.get_window_actors()
            .map(w => w.get_meta_window())
            "@
        + ".filter(w => w.get_id() === "@
        + window_id
        + ");"@
        + "
        if (windows.length > 0) {
            let window = windows[0];
            let workspaceManager = global.workspace_manager;
            let targetWorkspace = workspaceManager."@
        + "get_workspace_by_index("@
        + int_decimal(workspace_index as int)
        + ");"@
        + "
            if (targetWorkspace) {
                "@
        + "window.change_workspace(targetWorkspace);"@
        + "
                "@
        + "'moved to workspace "@
        + int_decimal(workspace_index as int)
        + "';"@
        + "
            } else {
                'workspace "@
        + int_decimal(workspace_index as int)
        + " not found';
            }
        } else {
            'window not found';
        }
    "@
}

/// Builds the script that moves the window with the given id to the workspace with the given index.
pub fn move_window_to_workspace_script(window_id: &str, workspace_index: i32) -> (r: String)
    requires
        is_window_id(window_id@),
    ensures
        r@ == spec_move_window_to_workspace_script(window_id@, workspace_index),
{
    let mut s = String::from_str("
        let windows = global.get_window_actors()
            .map(w => w.get_meta_window())
            ");
    s.append(".filter(w => w.get_id() === ");
    s.append(window_id);
    s.append(");");
    s.append("
        if (windows.length > 0) {
            let window = windows[0];
            let workspaceManager = global.workspace_manager;
            let targetWorkspace = workspaceManager.");
    s.append("get_workspace_by_index(");
    let workspace_index_text = i32_to_decimal(workspace_index);
    s.append(workspace_index_text.as_str());
    s.append(");");
    s.append("
            if (targetWorkspace) {
                ");
    s.append("window.change_workspace(targetWorkspace);");
    s.append("
                ");
    s.append("'moved to workspace ");
    let workspace_index_text = i32_to_decimal(workspace_index);
    s.append(workspace_index_text.as_str());
    s.append("';");
    s.append("
            } else {
                'workspace ");
    let workspace_index_text = i32_to_decimal(workspace_index);
    s.append(workspace_index_text.as_str());
    s.append(" not found';
            }
        } else {
            'window not found';
        }
    ");
    s
}

/// The script picks the window with the given id and moves it to the workspace with the given index.
#[verifier::spinoff_prover]
#[verifier::rlimit(50)]
pub proof fn lemma_move_window_to_workspace_script_does_its_action(window_id: Seq<char>, workspace_index: i32)
    ensures
        contains_text(spec_move_window_to_workspace_script(window_id, workspace_index), (".filter(w => w.get_id() === "@ + window_id + ");"@)),
        contains_text(spec_move_window_to_workspace_script(window_id, workspace_index), ("get_workspace_by_index("@ + int_decimal(workspace_index as int) + ");"@)),
        contains_text(spec_move_window_to_workspace_script(window_id, workspace_index), ("window.change_workspace(targetWorkspace);"@)),
        contains_text(spec_move_window_to_workspace_script(window_id, workspace_index), ("'moved to workspace "@ + int_decimal(workspace_index as int) + "';"@)),
{
    assert(contains_text(spec_move_window_to_workspace_script(window_id, workspace_index), (".filter(w => w.get_id() === "@ + window_id + ");"@))) by {
        lemma_contains_middle(("
        let windows = global.get_window_actors()
            .map(w => w.get_meta_window())
            "@), (".filter(w => w.get_id() === "@ + window_id + ");"@), ("
        if (windows.length > 0) {
            let window = windows[0];
            let workspaceManager = global.workspace_manager;
            let targetWorkspace = workspaceManager."@ + "get_workspace_by_index("@ + int_decimal(workspace_index as int) + ");"@ + "
            if (targetWorkspace) {
                "@ + "window.change_workspace(targetWorkspace);"@ + "
                "@ + "'moved to workspace "@ + int_decimal(workspace_index as int) + "';"@ + "
            } else {
                'workspace "@ + int_decimal(workspace_index as int) + " not found';
            }
        } else {
            'window not found';
        }
    "@));
        assert(spec_move_window_to_workspace_script(window_id, workspace_index) =~= ("
        let windows = global.get_window_actors()
            .map(w => w.get_meta_window())
            "@) + (".filter(w => w.get_id() === "@ + window_id + ");"@) + ("
        if (windows.length > 0) {
            let window = windows[0];
            let workspaceManager = global.workspace_manager;
            let targetWorkspace = workspaceManager."@ + "get_workspace_by_index("@ + int_decimal(workspace_index as int) + ");"@ + "
            if (targetWorkspace) {
                "@ + "window.change_workspace(targetWorkspace);"@ + "
                "@ + "'moved to workspace "@ + int_decimal(workspace_index as int) + "';"@ + "
            } else {
                'workspace "@ + int_decimal(workspace_index as int) + " not found';
            }
        } else {
            'window not found';
        }
    "@));
    }
    assert(contains_text(spec_move_window_to_workspace_script(window_id, workspace_index), ("get_workspace_by_index("@ + int_decimal(workspace_index as int) + ");"@))) by {
        lemma_contains_middle(("
        let windows = global.get_window_actors()
            .map(w => w.get_meta_window())
            "@ + ".filter(w => w.get_id() === "@ + window_id + ");"@ + "
        if (windows.length > 0) {
            let window = windows[0];
            let workspaceManager = global.workspace_manager;
            let targetWorkspace = workspaceManager."@), ("get_workspace_by_index("@ + int_decimal(workspace_index as int) + ");"@), ("
            if (targetWorkspace) {
                "@ + "window.change_workspace(targetWorkspace);"@ + "
                "@ + "'moved to workspace "@ + int_decimal(workspace_index as int) + "';"@ + "
            } else {
                'workspace "@ + int_decimal(workspace_index as int) + " not found';
            }
        } else {
            'window not found';
        }
    "@));
        assert(spec_move_window_to_workspace_script(window_id, workspace_index) =~= ("
        let windows = global.get_window_actors()
            .map(w => w.get_meta_window())
            "@ + ".filter(w => w.get_id() === "@ + window_id + ");"@ + "
        if (windows.length > 0) {
            let window = windows[0];
            let workspaceManager = global.workspace_manager;
            let targetWorkspace = workspaceManager."@) + ("get_workspace_by_index("@ + int_decimal(workspace_index as int) + ");"@) + ("
            if (targetWorkspace) {
                "@ + "window.change_workspace(targetWorkspace);"@ + "
                "@ + "'moved to workspace "@ + int_decimal(workspace_index as int) + "';"@ + "
            } else {
                'workspace "@ + int_decimal(workspace_index as int) + " not found';
            }
        } else {
            'window not found';
        }
    "@));
    }
    assert(contains_text(spec_move_window_to_workspace_script(window_id, workspace_index), ("window.change_workspace(targetWorkspace);"@))) by {
        lemma_contains_middle(("
        let windows = global.get_window_actors()
            .map(w => w.get_meta_window())
            "@ + ".filter(w => w.get_id() === "@ + window_id + ");"@ + "
        if (windows.length > 0) {
            let window = windows[0];
            let workspaceManager = global.workspace_manager;
            let targetWorkspace = workspaceManager."@ + "get_workspace_by_index("@ + int_decimal(workspace_index as int) + ");"@ + "
            if (targetWorkspace) {
                "@), ("window.change_workspace(targetWorkspace);"@), ("
                "@ + "'moved to workspace "@ + int_decimal(workspace_index as int) + "';"@ + "
            } else {
                'workspace "@ + int_decimal(workspace_index as int) + " not found';
            }
        } else {
            'window not found';
        }
    "@));
        assert(spec_move_window_to_workspace_script(window_id, workspace_index) =~= ("
        let windows = global.get_window_actors()
            .map(w => w.get_meta_window())
            "@ + ".filter(w => w.get_id() === "@ + window_id + ");"@ + "
        if (windows.length > 0) {
            let window = windows[0];
            let workspaceManager = global.workspace_manager;
            let targetWorkspace = workspaceManager."@ + "get_workspace_by_index("@ + int_decimal(workspace_index as int) + ");"@ + "
            if (targetWorkspace) {
                "@) + ("window.change_workspace(targetWorkspace);"@) + ("
                "@ + "'moved to workspace "@ + int_decimal(workspace_index as int) + "';"@ + "
            } else {
                'workspace "@ + int_decimal(workspace_index as int) + " not found';
            }
        } else {
            'window not found';
        }
    "@));
    }
    assert(contains_text(spec_move_window_to_workspace_script(window_id, workspace_index), ("'moved to workspace "@ + int_decimal(workspace_index as int) + "';"@))) by {
        lemma_contains_middle(("
        let windows = global.get_window_actors()
            .map(w => w.get_meta_window())
            "@ + ".filter(w => w.get_id() === "@ + window_id + ");"@ + "
        if (windows.length > 0) {
            let window = windows[0];
            let workspaceManager = global.workspace_manager;
            let targetWorkspace = workspaceManager."@ + "get_workspace_by_index("@ + int_decimal(workspace_index as int) + ");"@ + "
            if (targetWorkspace) {
                "@ + "window.change_workspace(targetWorkspace);"@ + "
                "@), ("'moved to workspace "@ + int_decimal(workspace_index as int) + "';"@), ("
            } else {
                'workspace "@ + int_decimal(workspace_index as int) + " not found';
            }
        } else {
            'window not found';
        }
    "@));
        assert(spec_move_window_to_workspace_script(window_id, workspace_index) =~= ("
        let windows = global.get_window_actors()
            .map(w => w.get_meta_window())
            "@ + ".filter(w => w.get_id() === "@ + window_id + ");"@ + "
        if (windows.length > 0) {
            let window = windows[0];
            let workspaceManager = global.workspace_manager;
            let targetWorkspace = workspaceManager."@ + "get_workspace_by_index("@ + int_decimal(workspace_index as int) + ");"@ + "
            if (targetWorkspace) {
                "@ + "window.change_workspace(targetWorkspace);"@ + "
                "@) + ("'moved to workspace "@ + int_decimal(workspace_index as int) + "';"@) + ("
            } else {
                'workspace "@ + int_decimal(workspace_index as int) + " not found';
            }
        } else {
            'window not found';
        }
    "@));
    }
}

/// The GNOME Shell script that reports the frame rectangle of the window with the given id as JSON.
pub open spec fn spec_get_window_geometry_script(window_id: Seq<char>) -> Seq<char> {
    "
        let windows = global.get_window_actors()
            .map(w => w.get_meta_window())
            "@
        + ".filter(w => w.get_id() === "@
        + window_id
        + ");"@
        + "
        if (windows.length > 0) {
            let window = windows[0];
            let rect = "@
        + "window.get_frame_rect();"@
        + "
            JSON.stringify({
                x: rect.x,
                y: rect.y,
                width: rect.width,
                height: rect.height
            });
        } else {
            'window not found';
        }
    "@
}

/// Builds the script that reports the frame rectangle of the window with the given id as JSON.
pub fn get_window_geometry_script(window_id: &str) -> (r: String)
    requires
        is_window_id(window_id@),
    ensures
        r@ == spec_get_window_geometry_script(window_id@),
{
    let mut s = String::from_str("
        let windows = global.get_window_actors()
            .map(w => w.get_meta_window())
            ");
    s.append(".filter(w => w.get_id() === ");
    s.append(window_id);
    s.append(");");
    s.append("
        if (windows.length > 0) {
            let window = windows[0];
            let rect = ");
    s.append("window.get_frame_rect();");
    s.append("
            JSON.stringify({
                x: rect.x,
                y: rect.y,
                width: rect.width,
                height: rect.height
            });
        } else {
            'window not found';
        }
    ");
    s
}

/// The script picks the window with the given id and reads its frame.
#[verifier::spinoff_prover]
#[verifier::rlimit(50)]
pub proof fn lemma_get_window_geometry_script_does_its_action(window_id: Seq<char>)
    ensures
        contains_text(spec_get_window_geometry_script(window_id), (".filter(w => w.get_id() === "@ + window_id + ");"@)),
        contains_text(spec_get_window_geometry_script(window_id), ("window.get_frame_rect();"@)),
{
    assert(contains_text(spec_get_window_geometry_script(window_id), (".filter(w => w.get_id() === "@ + window_id + ");"@))) by {
        lemma_contains_middle(("
        let windows = global.get_window_actors()
            .map(w => w.get_meta_window())
            "@), (".filter(w => w.get_id() === "@ + window_id + ");"@), ("
        if (windows.length > 0) {
            let window = windows[0];
            let rect = "@ + "window.get_frame_rect();"@ + "
            JSON.stringify({
                x: rect.x,
                y: rect.y,
                width: rect.width,
                height: rect.height
            });
        } else {
            'window not found';
        }
    "@));
        assert(spec_get_window_geometry_script(window_id) =~= ("
        let windows = global.get_window_actors()
            .map(w => w.get_meta_window())
            "@) + (".filter(w => w.get_id() === "@ + window_id + ");"@) + ("
        if (windows.length > 0) {
            let window = windows[0];
            let rect = "@ + "window.get_frame_rect();"@ + "
            JSON.stringify({
                x: rect.x,
                y: rect.y,
                width: rect.width,
                height: rect.height
            });
        } else {
            'window not found';
        }
    "@));
    }
    assert(contains_text(spec_get_window_geometry_script(window_id), ("window.get_frame_rect();"@))) by {
        lemma_contains_middle(("
        let windows = global.get_window_actors()
            .map(w => w.get_meta_window())
            "@ + ".filter(w => w.get_id() === "@ + window_id + ");"@ + "
        if (windows.length > 0) {
            let window = windows[0];
            let rect = "@), ("window.get_frame_rect();"@), ("
            JSON.stringify({
                x: rect.x,
                y: rect.y,
                width: rect.width,
                height: rect.height
            });
        } else {
            'window not found';
        }
    "@));
        assert(spec_get_window_geometry_script(window_id) =~= ("
        let windows = global.get_window_actors()
            .map(w => w.get_meta_window())
            "@ + ".filter(w => w.get_id() === "@ + window_id + ");"@ + "
        if (windows.length > 0) {
            let window = windows[0];
            let rect = "@) + ("window.get_frame_rect();"@) + ("
            JSON.stringify({
                x: rect.x,
                y: rect.y,
                width: rect.width,
                height: rect.height
            });
        } else {
            'window not found';
        }
    "@));
    }
}

/// The GNOME Shell script that unmaximizes the window with the given id and moves and resizes its frame.
pub open spec fn spec_set_window_geometry_script(window_id: Seq<char>, x: i32, y: i32, width: i32, height: i32) -> Seq<char> {
    "
        let windows = global.get_window_actors()
            .map(w => w.get_meta_window())
            "@
        + ".filter(w => w.get_id() === "@
        + window_id
        + ");"@
        + "
        if (windows.length > 0) {
            let window = windows[0];
            "@
        + "window.unmaximize(Meta.MaximizeFlags.BOTH);"@
        + "
            "@
        + "window.move_resize_frame(false, "@
        + int_decimal(x as int)
        + ", "@
        + int_decimal(y as int)
        + ", "@
        + int_decimal(width as int)
        + ", "@
        + int_decimal(height as int)
        + ");"@
        + "
            'geometry set';
        } else {
            'window not found';
        }
    "@
}

/// Builds the script that unmaximizes the window with the given id and moves and resizes its frame.
pub fn set_window_geometry_script(window_id: &str, x: i32, y: i32, width: i32, height: i32) -> (r: String)
    requires
        is_window_id(window_id@),
    ensures
        r@ == spec_set_window_geometry_script(window_id@, x, y, width, height),
{
    let mut s = String::from_str("
        let windows = global.get_window_actors()
            .map(w => w.get_meta_window())
            ");
    s.append(".filter(w => w.get_id() === ");
    s.append(window_id);
    s.append(");");
    s.append("
        if (windows.length > 0) {
            let window = windows[0];
            ");
    s.append("window.unmaximize(Meta.MaximizeFlags.BOTH);");
    s.append("
            ");
    s.append("window.move_resize_frame(false, ");
    let x_text = i32_to_decimal(x);
    s.append(x_text.as_str());
    s.append(", ");
    let y_text = i32_to_decimal(y);
    s.append(y_text.as_str());
    s.append(", ");
    let width_text = i32_to_decimal(width);
    s.append(width_text.as_str());
    s.append(", ");
    let height_text = i32_to_decimal(height);
    s.append(height_text.as_str());
    s.append(");");
    s.append("
            'geometry set';
        } else {
            'window not found';
        }
    ");
    s
}

/// The script picks the window with the given id and gives its frame the position x, y and the size width by height, in that order.
#[verifier::spinoff_prover]
#[verifier::rlimit(50)]
pub proof fn lemma_set_window_geometry_script_does_its_action(window_id: Seq<char>, x: i32, y: i32, width: i32, height: i32)
    ensures
        contains_text(spec_set_window_geometry_script(window_id, x, y, width, height), (".filter(w => w.get_id() === "@ + window_id + ");"@)),
        contains_text(spec_set_window_geometry_script(window_id, x, y, width, height), ("window.unmaximize(Meta.MaximizeFlags.BOTH);"@)),
        contains_text(spec_set_window_geometry_script(window_id, x, y, width, height), ("window.move_resize_frame(false, "@ + int_decimal(x as int) + ", "@ + int_decimal(y as int) + ", "@ + int_decimal(width as int) + ", "@ + int_decimal(height as int) + ");"@)),
{
    assert(contains_text(spec_set_window_geometry_script(window_id, x, y, width, height), (".filter(w => w.get_id() === "@ + window_id + ");"@))) by {
        lemma_contains_middle(("
        let windows = global.get_window_actors()
            .map(w => w.get_meta_window())
            "@), (".filter(w => w.get_id() === "@ + window_id + ");"@), ("
        if (windows.length > 0) {
            let window = windows[0];
            "@ + "window.unmaximize(Meta.MaximizeFlags.BOTH);"@ + "
            "@ + "window.move_resize_frame(false, "@ + int_decimal(x as int) + ", "@ + int_decimal(y as int) + ", "@ + int_decimal(width as int) + ", "@ + int_decimal(height as int) + ");"@ + "
            'geometry set';
        } else {
            'window not found';
        }
    "@));
        assert(spec_set_window_geometry_script(window_id, x, y, width, height) =~= ("
        let windows = global.get_window_actors()
            .map(w => w.get_meta_window())
            "@) + (".filter(w => w.get_id() === "@ + window_id + ");"@) + ("
        if (windows.length > 0) {
            let window = windows[0];
            "@ + "window.unmaximize(Meta.MaximizeFlags.BOTH);"@ + "
            "@ + "window.move_resize_frame(false, "@ + int_decimal(x as int) + ", "@ + int_decimal(y as int) + ", "@ + int_decimal(width as int) + ", "@ + int_decimal(height as int) + ");"@ + "
            'geometry set';
        } else {
            'window not found';
        }
    "@));
    }
    assert(contains_text(spec_set_window_geometry_script(window_id, x, y, width, height), ("window.unmaximize(Meta.MaximizeFlags.BOTH);"@))) by {
        lemma_contains_middle(("
        let windows = global.get_window_actors()
            .map(w => w.get_meta_window())
            "@ + ".filter(w => w.get_id() === "@ + window_id + ");"@ + "
        if (windows.length > 0) {
            let window = windows[0];
            "@), ("window.unmaximize(Meta.MaximizeFlags.BOTH);"@), ("
            "@ + "window.move_resize_frame(false, "@ + int_decimal(x as int) + ", "@ + int_decimal(y as int) + ", "@ + int_decimal(width as int) + ", "@ + int_decimal(height as int) + ");"@ + "
            'geometry set';
        } else {
            'window not found';
        }
    "@));
        assert(spec_set_window_geometry_script(window_id, x, y, width, height) =~= ("
        let windows = global.get_window_actors()
            .map(w => w.get_meta_window())
            "@ + ".filter(w => w.get_id() === "@ + window_id + ");"@ + "
        if (windows.length > 0) {
            let window = windows[0];
            "@) + ("window.unmaximize(Meta.MaximizeFlags.BOTH);"@) + ("
            "@ + "window.move_resize_frame(false, "@ + int_decimal(x as int) + ", "@ + int_decimal(y as int) + ", "@ + int_decimal(width as int) + ", "@ + int_decimal(height as int) + ");"@ + "
            'geometry set';
        } else {
            'window not found';
        }
    "@));
    }
    assert(contains_text(spec_set_window_geometry_script(window_id, x, y, width, height), ("window.move_resize_frame(false, "@ + int_decimal(x as int) + ", "@ + int_decimal(y as int) + ", "@ + int_decimal(width as int) + ", "@ + int_decimal(height as int) + ");"@))) by {
        lemma_contains_middle(("
        let windows = global.get_window_actors()
            .map(w => w.get_meta_window())
            "@ + ".filter(w => w.get_id() === "@ + window_id + ");"@ + "
        if (windows.length > 0) {
            let window = windows[0];
            "@ + "window.unmaximize(Meta.MaximizeFlags.BOTH);"@ + "
            "@), ("window.move_resize_frame(false, "@ + int_decimal(x as int) + ", "@ + int_decimal(y as int) + ", "@ + int_decimal(width as int) + ", "@ + int_decimal(height as int) + ");"@), ("
            'geometry set';
        } else {
            'window not found';
        }
    "@));
        assert(spec_set_window_geometry_script(window_id, x, y, width, height) =~= ("
        let windows = global.get_window_actors()
            .map(w => w.get_meta_window())
            "@ + ".filter(w => w.get_id() === "@ + window_id + ");"@ + "
        if (windows.length > 0) {
            let window = windows[0];
            "@ + "window.unmaximize(Meta.MaximizeFlags.BOTH);"@ + "
            "@) + ("window.move_resize_frame(false, "@ + int_decimal(x as int) + ", "@ + int_decimal(y as int) + ", "@ + int_decimal(width as int) + ", "@ + int_decimal(height as int) + ");"@) + ("
            'geometry set';
        } else {
            'window not found';
        }
    "@));
    }
}

/// The GNOME Shell script that moves the frame of the window with the given id, keeping its size.
pub open spec fn spec_set_window_position_script(window_id: Seq<char>, x: i32, y: i32) -> Seq<char> {
    "
        let windows = global.get_window_actors()
            .map(w => w.get_meta_window())
            "@
        + ".filter(w => w.get_id() === "@
        + window_id
        + ");"@
        + "
        if (windows.length > 0) {
            let window = windows[0];
            let rect = window.get_frame_rect();
            "@
        + "window.move_resize_frame(false, "@
        + int_decimal(x as int)
        + ", "@
        + int_decimal(y as int)
        + ", rect.width, rect.height);"@
        + "
            'position set';
        } else {
            'window not found';
        }
    "@
}

/// Builds the script that moves the frame of the window with the given id, keeping its size.
pub fn set_window_position_script(window_id: &str, x: i32, y: i32) -> (r: String)
    requires
        is_window_id(window_id@),
    ensures
        r@ == spec_set_window_position_script(window_id@, x, y),
{
    let mut s = String::from_str("
        let windows = global.get_window_actors()
            .map(w => w.get_meta_window())
            ");
    s.append(".filter(w => w.get_id() === ");
    s.append(window_id);
    s.append(");");
    s.append("
        if (windows.length > 0) {
            let window = windows[0];
            let rect = window.get_frame_rect();
            ");
    s.append("window.move_resize_frame(false, ");
    let x_text = i32_to_decimal(x);
    s.append(x_text.as_str());
    s.append(", ");
    let y_text = i32_to_decimal(y);
    s.append(y_text.as_str());
    s.append(", rect.width, rect.height);");
    s.append("
            'position set';
        } else {
            'window not found';
        }
    ");
    s
}

/// The script picks the window with the given id and moves its frame to x, y, keeping its width and height.
#[verifier::spinoff_prover]
#[verifier::rlimit(50)]
pub proof fn lemma_set_window_position_script_does_its_action(window_id: Seq<char>, x: i32, y: i32)
    ensures
        contains_text(spec_set_window_position_script(window_id, x, y), (".filter(w => w.get_id() === "@ + window_id + ");"@)),
        contains_text(spec_set_window_position_script(window_id, x, y), ("window.move_resize_frame(false, "@ + int_decimal(x as int) + ", "@ + int_decimal(y as int) + ", rect.width, rect.height);"@)),
{
    assert(contains_text(spec_set_window_position_script(window_id, x, y), (".filter(w => w.get_id() === "@ + window_id + ");"@))) by {
        lemma_contains_middle(("
        let windows = global.get_window_actors()
            .map(w => w.get_meta_window())
            "@), (".filter(w => w.get_id() === "@ + window_id + ");"@), ("
        if (windows.length > 0) {
            let window = windows[0];
            let rect = window.get_frame_rect();
            "@ + "window.move_resize_frame(false, "@ + int_decimal(x as int) + ", "@ + int_decimal(y as int) + ", rect.width, rect.height);"@ + "
            'position set';
        } else {
            'window not found';
        }
    "@));
        assert(spec_set_window_position_script(window_id, x, y) =~= ("
        let windows = global.get_window_actors()
            .map(w => w.get_meta_window())
            "@) + (".filter(w => w.get_id() === "@ + window_id + ");"@) + ("
        if (windows.length > 0) {
            let window = windows[0];
            let rect = window.get_frame_rect();
            "@ + "window.move_resize_frame(false, "@ + int_decimal(x as int) + ", "@ + int_decimal(y as int) + ", rect.width, rect.height);"@ + "
            'position set';
        } else {
            'window not found';
        }
    "@));
    }
    assert(contains_text(spec_set_window_position_script(window_id, x, y), ("window.move_resize_frame(false, "@ + int_decimal(x as int) + ", "@ + int_decimal(y as int) + ", rect.width, rect.height);"@))) by {
        lemma_contains_middle(("
        let windows = global.get_window_actors()
            .map(w => w.get_meta_window())
            "@ + ".filter(w => w.get_id() === "@ + window_id + ");"@ + "
        if (windows.length > 0) {
            let window = windows[0];
            let rect = window.get_frame_rect();
            "@), ("window.move_resize_frame(false, "@ + int_decimal(x as int) + ", "@ + int_decimal(y as int) + ", rect.width, rect.height);"@), ("
            'position set';
        } else {
            'window not found';
        }
    "@));
        assert(spec_set_window_position_script(window_id, x, y) =~= ("
        let windows = global.get_window_actors()
            .map(w => w.get_meta_window())
            "@ + ".filter(w => w.get_id() === "@ + window_id + ");"@ + "
        if (windows.length > 0) {
            let window = windows[0];
            let rect = window.get_frame_rect();
            "@) + ("window.move_resize_frame(false, "@ + int_decimal(x as int) + ", "@ + int_decimal(y as int) + ", rect.width, rect.height);"@) + ("
            'position set';
        } else {
            'window not found';
        }
    "@));
    }
}

/// The GNOME Shell script that unmaximizes the window with the given id and resizes its frame, keeping its position.
pub open spec fn spec_set_window_size_script(window_id: Seq<char>, width: i32, height: i32) -> Seq<char> {
    "
        let windows = global.get_window_actors()
            .map(w => w.get_meta_window())
            "@
        + ".filter(w => w.get_id() === "@
        + window_id
        + ");"@
        + "
        if (windows.length > 0) {
            let window = windows[0];
            "@
        + "window.unmaximize(Meta.MaximizeFlags.BOTH);"@
        + "
            let rect = window.get_frame_rect();
            "@
        + "window.move_resize_frame(false, rect.x, rect.y, "@
        + int_decimal(width as int)
        + ", "@
        + int_decimal(height as int)
        + ");"@
        + "
            'size set';
        } else {
            'window not found';
        }
    "@
}

/// Builds the script that unmaximizes the window with the given id and resizes its frame, keeping its position.
pub fn set_window_size_script(window_id: &str, width: i32, height: i32) -> (r: String)
    requires
        is_window_id(window_id@),
    ensures
        r@ == spec_set_window_size_script(window_id@, width, height),
{
    let mut s = String::from_str("
        let windows = global.get_window_actors()
            .map(w => w.get_meta_window())
            ");
    s.append(".filter(w => w.get_id() === ");
    s.append(window_id);
    s.append(");");
    s.append("
        if (windows.length > 0) {
            let window = windows[0];
            ");
    s.append("window.unmaximize(Meta.MaximizeFlags.BOTH);");
    s.append("
            let rect = window.get_frame_rect();
            ");
    s.append("window.move_resize_frame(false, rect.x, rect.y, ");
    let width_text = i32_to_decimal(width);
    s.append(width_text.as_str());
    s.append(", ");
    let height_text = i32_to_decimal(height);
    s.append(height_text.as_str());
    s.append(");");
    s.append("
            'size set';
        } else {
            'window not found';
        }
    ");
    s
}

/// The script picks the window with the given id and resizes its frame to width by height, keeping its position.
#[verifier::spinoff_prover]
#[verifier::rlimit(50)]
pub proof fn lemma_set_window_size_script_does_its_action(window_id: Seq<char>, width: i32, height: i32)
    ensures
        contains_text(spec_set_window_size_script(window_id, width, height), (".filter(w => w.get_id() === "@ + window_id + ");"@)),
        contains_text(spec_set_window_size_script(window_id, width, height), ("window.unmaximize(Meta.MaximizeFlags.BOTH);"@)),
        contains_text(spec_set_window_size_script(window_id, width, height), ("window.move_resize_frame(false, rect.x, rect.y, "@ + int_decimal(width as int) + ", "@ + int_decimal(height as int) + ");"@)),
{
    assert(contains_text(spec_set_window_size_script(window_id, width, height), (".filter(w => w.get_id() === "@ + window_id + ");"@))) by {
        lemma_contains_middle(("
        let windows = global.get_window_actors()
            .map(w => w.get_meta_window())
            "@), (".filter(w => w.get_id() === "@ + window_id + ");"@), ("
        if (windows.length > 0) {
            let window = windows[0];
            "@ + "window.unmaximize(Meta.MaximizeFlags.BOTH);"@ + "
            let rect = window.get_frame_rect();
            "@ + "window.move_resize_frame(false, rect.x, rect.y, "@ + int_decimal(width as int) + ", "@ + int_decimal(height as int) + ");"@ + "
            'size set';
        } else {
            'window not found';
        }
    "@));
        assert(spec_set_window_size_script(window_id, width, height) =~= ("
        let windows = global.get_window_actors()
            .map(w => w.get_meta_window())
            "@) + (".filter(w => w.get_id() === "@ + window_id + ");"@) + ("
        if (windows.length > 0) {
            let window = windows[0];
            "@ + "window.unmaximize(Meta.MaximizeFlags.BOTH);"@ + "
            let rect = window.get_frame_rect();
            "@ + "window.move_resize_frame(false, rect.x, rect.y, "@ + int_decimal(width as int) + ", "@ + int_decimal(height as int) + ");"@ + "
            'size set';
        } else {
            'window not found';
        }
    "@));
    }
    assert(contains_text(spec_set_window_size_script(window_id, width, height), ("window.unmaximize(Meta.MaximizeFlags.BOTH);"@))) by {
        lemma_contains_middle(("
        let windows = global.get_window_actors()
            .map(w => w.get_meta_window())
            "@ + ".filter(w => w.get_id() === "@ + window_id + ");"@ + "
        if (windows.length > 0) {
            let window = windows[0];
            "@), ("window.unmaximize(Meta.MaximizeFlags.BOTH);"@), ("
            let rect = window.get_frame_rect();
            "@ + "window.move_resize_frame(false, rect.x, rect.y, "@ + int_decimal(width as int) + ", "@ + int_decimal(height as int) + ");"@ + "
            'size set';
        } else {
            'window not found';
        }
    "@));
        assert(spec_set_window_size_script(window_id, width, height) =~= ("
        let windows = global.get_window_actors()
            .map(w => w.get_meta_window())
            "@ + ".filter(w => w.get_id() === "@ + window_id + ");"@ + "
        if (windows.length > 0) {
            let window = windows[0];
            "@) + ("window.unmaximize(Meta.MaximizeFlags.BOTH);"@) + ("
            let rect = window.get_frame_rect();
            "@ + "window.move_resize_frame(false, rect.x, rect.y, "@ + int_decimal(width as int) + ", "@ + int_decimal(height as int) + ");"@ + "
            'size set';
        } else {
            'window not found';
        }
    "@));
    }
    assert(contains_text(spec_set_window_size_script(window_id, width, height), ("window.move_resize_frame(false, rect.x, rect.y, "@ + int_decimal(width as int) + ", "@ + int_decimal(height as int) + ");"@))) by {
        lemma_contains_middle(("
        let windows = global.get_window_actors()
            .map(w => w.get_meta_window())
            "@ + ".filter(w => w.get_id() === "@ + window_id + ");"@ + "
        if (windows.length > 0) {
            let window = windows[0];
            "@ + "window.unmaximize(Meta.MaximizeFlags.BOTH);"@ + "
            let rect = window.get_frame_rect();
            "@), ("window.move_resize_frame(false, rect.x, rect.y, "@ + int_decimal(width as int) + ", "@ + int_decimal(height as int) + ");"@), ("
            'size set';
        } else {
            'window not found';
        }
    "@));
        assert(spec_set_window_size_script(window_id, width, height) =~= ("
        let windows = global.get_window_actors()
            .map(w => w.get_meta_window())
            "@ + ".filter(w => w.get_id() === "@ + window_id + ");"@ + "
        if (windows.length > 0) {
            let window = windows[0];
            "@ + "window.unmaximize(Meta.MaximizeFlags.BOTH);"@ + "
            let rect = window.get_frame_rect();
            "@) + ("window.move_resize_frame(false, rect.x, rect.y, "@ + int_decimal(width as int) + ", "@ + int_decimal(height as int) + ");"@) + ("
            'size set';
        } else {
            'window not found';
        }
    "@));
    }
}

/// The GNOME Shell script that tiles the window with the given id to the left or right half of its work area.
pub open spec fn spec_snap_window_script(window_id: Seq<char>, position: Seq<char>) -> Seq<char> {
    "
        let windows = global.get_window_actors()
            .map(w => w.get_meta_window())
            "@
        + ".filter(w => w.get_id() === "@
        + window_id
        + ");"@
        + "
        if (windows.length > 0) {
            let window = windows[0];
            let monitor = window.get_monitor();
            let workArea = global.workspace_manager.get_active_workspace().get_work_area_for_monitor(monitor);

            window.unmaximize(Meta.MaximizeFlags.BOTH);

            let x, y, width, height;
            "@
        + "if ('"@
        + position
        + "' === 'left') {"@
        + "
                x = workArea.x;
                y = workArea.y;
                width = Math.floor(workArea.width / 2);
                height = workArea.height;
            "@
        + "} else if ('"@
        + position
        + "' === 'right') {"@
        + "
                "@
        + "x = workArea.x + Math.floor(workArea.width / 2);"@
        + "
                y = workArea.y;
                width = Math.ceil(workArea.width / 2);
                height = workArea.height;
            } else {
                'invalid position: must be left or right';
            }

            if (x !== undefined) {
                window.move_resize_frame(false, x, y, width, height);
                "@
        + "'snapped to "@
        + position
        + "';"@
        + "
            } else {
                'invalid position: must be left or right';
            }
        } else {
            'window not found';
        }
    "@
}

/// Builds the script that tiles the window with the given id to the left or right half of its work area.
pub fn snap_window_script(window_id: &str, position: &str) -> (r: String)
    requires
        is_window_id(window_id@),
        is_snap_position(position@),
    ensures
        r@ == spec_snap_window_script(window_id@, position@),
{
    let mut s = String::from_str("
        let windows = global.get_window_actors()
            .map(w => w.get_meta_window())
            ");
    s.append(".filter(w => w.get_id() === ");
    s.append(window_id);
    s.append(");");
    s.append("
        if (windows.length > 0) {
            let window = windows[0];
            let monitor = window.get_monitor();
            let workArea = global.workspace_manager.get_active_workspace().get_work_area_for_monitor(monitor);

            window.unmaximize(Meta.MaximizeFlags.BOTH);

            let x, y, width, height;
            ");
    s.append("if ('");
    s.append(position);
    s.append("' === 'left') {");
    s.append("
                x = workArea.x;
                y = workArea.y;
                width = Math.floor(workArea.width / 2);
                height = workArea.height;
            ");
    s.append("} else if ('");
    s.append(position);
    s.append("' === 'right') {");
    s.append("
                ");
    s.append("x = workArea.x + Math.floor(workArea.width / 2);");
    s.append("
                y = workArea.y;
                width = Math.ceil(workArea.width / 2);
                height = workArea.height;
            } else {
                'invalid position: must be left or right';
            }

            if (x !== undefined) {
                window.move_resize_frame(false, x, y, width, height);
                ");
    s.append("'snapped to ");
    s.append(position);
    s.append("';");
    s.append("
            } else {
                'invalid position: must be left or right';
            }
        } else {
            'window not found';
        }
    ");
    s
}

/// The script picks the window with the given id, tests the given position first against `left`, then against `right`, moves the window to the right half (from the middle of the work area) in the second case, and reports the position.
#[verifier::spinoff_prover]
#[verifier::rlimit(50)]
pub proof fn lemma_snap_window_script_does_its_action(window_id: Seq<char>, position: Seq<char>)
    ensures
        contains_text(spec_snap_window_script(window_id, position), (".filter(w => w.get_id() === "@ + window_id + ");"@)),
        contains_text(spec_snap_window_script(window_id, position), ("if ('"@ + position + "' === 'left') {"@)),
        contains_text(spec_snap_window_script(window_id, position), ("} else if ('"@ + position + "' === 'right') {"@)),
        contains_text(spec_snap_window_script(window_id, position), ("x = workArea.x + Math.floor(workArea.width / 2);"@)),
        contains_text(spec_snap_window_script(window_id, position), ("'snapped to "@ + position + "';"@)),
{
    assert(contains_text(spec_snap_window_script(window_id, position), (".filter(w => w.get_id() === "@ + window_id + ");"@))) by {
        lemma_contains_middle(("
        let windows = global.get_window_actors()
            .map(w => w.get_meta_window())
            "@), (".filter(w => w.get_id() === "@ + window_id + ");"@), ("
        if (windows.length > 0) {
            let window = windows[0];
            let monitor = window.get_monitor();
            let workArea = global.workspace_manager.get_active_workspace().get_work_area_for_monitor(monitor);

            window.unmaximize(Meta.MaximizeFlags.BOTH);

            let x, y, width, height;
            "@ + "if ('"@ + position + "' === 'left') {"@ + "
                x = workArea.x;
                y = workArea.y;
                width = Math.floor(workArea.width / 2);
                height = workArea.height;
            "@ + "} else if ('"@ + position + "' === 'right') {"@ + "
                "@ + "x = workArea.x + Math.floor(workArea.width / 2);"@ + "
                y = workArea.y;
                width = Math.ceil(workArea.width / 2);
                height = workArea.height;
            } else {
                'invalid position: must be left or right';
            }

            if (x !== undefined) {
                window.move_resize_frame(false, x, y, width, height);
                "@ + "'snapped to "@ + position + "';"@ + "
            } else {
                'invalid position: must be left or right';
            }
        } else {
            'window not found';
        }
    "@));
        assert(spec_snap_window_script(window_id, position) =~= ("
        let windows = global.get_window_actors()
            .map(w => w.get_meta_window())
            "@) + (".filter(w => w.get_id() === "@ + window_id + ");"@) + ("
        if (windows.length > 0) {
            let window = windows[0];
            let monitor = window.get_monitor();
            let workArea = global.workspace_manager.get_active_workspace().get_work_area_for_monitor(monitor);

            window.unmaximize(Meta.MaximizeFlags.BOTH);

            let x, y, width, height;
            "@ + "if ('"@ + position + "' === 'left') {"@ + "
                x = workArea.x;
                y = workArea.y;
                width = Math.floor(workArea.width / 2);
                height = workArea.height;
            "@ + "} else if ('"@ + position + "' === 'right') {"@ + "
                "@ + "x = workArea.x + Math.floor(workArea.width / 2);"@ + "
                y = workArea.y;
                width = Math.ceil(workArea.width / 2);
                height = workArea.height;
            } else {
                'invalid position: must be left or right';
            }

            if (x !== undefined) {
                window.move_resize_frame(false, x, y, width, height);
                "@ + "'snapped to "@ + position + "';"@ + "
            } else {
                'invalid position: must be left or right';
            }
        } else {
            'window not found';
        }
    "@));
    }
    assert(contains_text(spec_snap_window_script(window_id, position), ("if ('"@ + position + "' === 'left') {"@))) by {
        lemma_contains_middle(("
        let windows = global.get_window_actors()
            .map(w => w.get_meta_window())
            "@ + ".filter(w => w.get_id() === "@ + window_id + ");"@ + "
        if (windows.length > 0) {
            let window = windows[0];
            let monitor = window.get_monitor();
            let workArea = global.workspace_manager.get_active_workspace().get_work_area_for_monitor(monitor);

            window.unmaximize(Meta.MaximizeFlags.BOTH);

            let x, y, width, height;
            "@), ("if ('"@ + position + "' === 'left') {"@), ("
                x = workArea.x;
                y = workArea.y;
                width = Math.floor(workArea.width / 2);
                height = workArea.height;
            "@ + "} else if ('"@ + position + "' === 'right') {"@ + "
                "@ + "x = workArea.x + Math.floor(workArea.width / 2);"@ + "
                y = workArea.y;
                width = Math.ceil(workArea.width / 2);
                height = workArea.height;
            } else {
                'invalid position: must be left or right';
            }

            if (x !== undefined) {
                window.move_resize_frame(false, x, y, width, height);
                "@ + "'snapped to "@ + position + "';"@ + "
            } else {
                'invalid position: must be left or right';
            }
        } else {
            'window not found';
        }
    "@));
        assert(spec_snap_window_script(window_id, position) =~= ("
        let windows = global.get_window_actors()
            .map(w => w.get_meta_window())
            "@ + ".filter(w => w.get_id() === "@ + window_id + ");"@ + "
        if (windows.length > 0) {
            let window = windows[0];
            let monitor = window.get_monitor();
            let workArea = global.workspace_manager.get_active_workspace().get_work_area_for_monitor(monitor);

            window.unmaximize(Meta.MaximizeFlags.BOTH);

            let x, y, width, height;
            "@) + ("if ('"@ + position + "' === 'left') {"@) + ("
                x = workArea.x;
                y = workArea.y;
                width = Math.floor(workArea.width / 2);
                height = workArea.height;
            "@ + "} else if ('"@ + position + "' === 'right') {"@ + "
                "@ + "x = workArea.x + Math.floor(workArea.width / 2);"@ + "
                y = workArea.y;
                width = Math.ceil(workArea.width / 2);
                height = workArea.height;
            } else {
                'invalid position: must be left or right';
            }

            if (x !== undefined) {
                window.move_resize_frame(false, x, y, width, height);
                "@ + "'snapped to "@ + position + "';"@ + "
            } else {
                'invalid position: must be left or right';
            }
        } else {
            'window not found';
        }
    "@));
    }
    assert(contains_text(spec_snap_window_script(window_id, position), ("} else if ('"@ + position + "' === 'right') {"@))) by {
        lemma_contains_middle(("
        let windows = global.get_window_actors()
            .map(w => w.get_meta_window())
            "@ + ".filter(w => w.get_id() === "@ + window_id + ");"@ + "
        if (windows.length > 0) {
            let window = windows[0];
            let monitor = window.get_monitor();
            let workArea = global.workspace_manager.get_active_workspace().get_work_area_for_monitor(monitor);

            window.unmaximize(Meta.MaximizeFlags.BOTH);

            let x, y, width, height;
            "@ + "if ('"@ + position + "' === 'left') {"@ + "
                x = workArea.x;
                y = workArea.y;
                width = Math.floor(workArea.width / 2);
                height = workArea.height;
            "@), ("} else if ('"@ + position + "' === 'right') {"@), ("
                "@ + "x = workArea.x + Math.floor(workArea.width / 2);"@ + "
                y = workArea.y;
                width = Math.ceil(workArea.width / 2);
                height = workArea.height;
            } else {
                'invalid position: must be left or right';
            }

            if (x !== undefined) {
                window.move_resize_frame(false, x, y, width, height);
                "@ + "'snapped to "@ + position + "';"@ + "
            } else {
                'invalid position: must be left or right';
            }
        } else {
            'window not found';
        }
    "@));
        assert(spec_snap_window_script(window_id, position) =~= ("
        let windows = global.get_window_actors()
            .map(w => w.get_meta_window())
            "@ + ".filter(w => w.get_id() === "@ + window_id + ");"@ + "
        if (windows.length > 0) {
            let window = windows[0];
            let monitor = window.get_monitor();
            let workArea = global.workspace_manager.get_active_workspace().get_work_area_for_monitor(monitor);

            window.unmaximize(Meta.MaximizeFlags.BOTH);

            let x, y, width, height;
            "@ + "if ('"@ + position + "' === 'left') {"@ + "
                x = workArea.x;
                y = workArea.y;
                width = Math.floor(workArea.width / 2);
                height = workArea.height;
            "@) + ("} else if ('"@ + position + "' === 'right') {"@) + ("
                "@ + "x = workArea.x + Math.floor(workArea.width / 2);"@ + "
                y = workArea.y;
                width = Math.ceil(workArea.width / 2);
                height = workArea.height;
            } else {
                'invalid position: must be left or right';
            }

            if (x !== undefined) {
                window.move_resize_frame(false, x, y, width, height);
                "@ + "'snapped to "@ + position + "';"@ + "
            } else {
                'invalid position: must be left or right';
            }
        } else {
            'window not found';
        }
    "@));
    }
    assert(contains_text(spec_snap_window_script(window_id, position), ("x = workArea.x + Math.floor(workArea.width / 2);"@))) by {
        lemma_contains_middle(("
        let windows = global.get_window_actors()
            .map(w => w.get_meta_window())
            "@ + ".filter(w => w.get_id() === "@ + window_id + ");"@ + "
        if (windows.length > 0) {
            let window = windows[0];
            let monitor = window.get_monitor();
            let workArea = global.workspace_manager.get_active_workspace().get_work_area_for_monitor(monitor);

            window.unmaximize(Meta.MaximizeFlags.BOTH);

            let x, y, width, height;
            "@ + "if ('"@ + position + "' === 'left') {"@ + "
                x = workArea.x;
                y = workArea.y;
                width = Math.floor(workArea.width / 2);
                height = workArea.height;
            "@ + "} else if ('"@ + position + "' === 'right') {"@ + "
                "@), ("x = workArea.x + Math.floor(workArea.width / 2);"@), ("
                y = workArea.y;
                width = Math.ceil(workArea.width / 2);
                height = workArea.height;
            } else {
                'invalid position: must be left or right';
            }

            if (x !== undefined) {
                window.move_resize_frame(false, x, y, width, height);
                "@ + "'snapped to "@ + position + "';"@ + "
            } else {
                'invalid position: must be left or right';
            }
        } else {
            'window not found';
        }
    "@));
        assert(spec_snap_window_script(window_id, position) =~= ("
        let windows = global.get_window_actors()
            .map(w => w.get_meta_window())
            "@ + ".filter(w => w.get_id() === "@ + window_id + ");"@ + "
        if (windows.length > 0) {
            let window = windows[0];
            let monitor = window.get_monitor();
            let workArea = global.workspace_manager.get_active_workspace().get_work_area_for_monitor(monitor);

            window.unmaximize(Meta.MaximizeFlags.BOTH);

            let x, y, width, height;
            "@ + "if ('"@ + position + "' === 'left') {"@ + "
                x = workArea.x;
                y = workArea.y;
                width = Math.floor(workArea.width / 2);
                height = workArea.height;
            "@ + "} else if ('"@ + position + "' === 'right') {"@ + "
                "@) + ("x = workArea.x + Math.floor(workArea.width / 2);"@) + ("
                y = workArea.y;
                width = Math.ceil(workArea.width / 2);
                height = workArea.height;
            } else {
                'invalid position: must be left or right';
            }

            if (x !== undefined) {
                window.move_resize_frame(false, x, y, width, height);
                "@ + "'snapped to "@ + position + "';"@ + "
            } else {
                'invalid position: must be left or right';
            }
        } else {
            'window not found';
        }
    "@));
    }
    assert(contains_text(spec_snap_window_script(window_id, position), ("'snapped to "@ + position + "';"@))) by {
        lemma_contains_middle(("
        let windows = global.get_window_actors()
            .map(w => w.get_meta_window())
            "@ + ".filter(w => w.get_id() === "@ + window_id + ");"@ + "
        if (windows.length > 0) {
            let window = windows[0];
            let monitor = window.get_monitor();
            let workArea = global.workspace_manager.get_active_workspace().get_work_area_for_monitor(monitor);

            window.unmaximize(Meta.MaximizeFlags.BOTH);

            let x, y, width, height;
            "@ + "if ('"@ + position + "' === 'left') {"@ + "
                x = workArea.x;
                y = workArea.y;
                width = Math.floor(workArea.width / 2);
                height = workArea.height;
            "@ + "} else if ('"@ + position + "' === 'right') {"@ + "
                "@ + "x = workArea.x + Math.floor(workArea.width / 2);"@ + "
                y = workArea.y;
                width = Math.ceil(workArea.width / 2);
                height = workArea.height;
            } else {
                'invalid position: must be left or right';
            }

            if (x !== undefined) {
                window.move_resize_frame(false, x, y, width, height);
                "@), ("'snapped to "@ + position + "';"@), ("
            } else {
                'invalid position: must be left or right';
            }
        } else {
            'window not found';
        }
    "@));
        assert(spec_snap_window_script(window_id, position) =~= ("
        let windows = global.get_window_actors()
            .map(w => w.get_meta_window())
            "@ + ".filter(w => w.get_id() === "@ + window_id + ");"@ + "
        if (windows.length > 0) {
            let window = windows[0];
            let monitor = window.get_monitor();
            let workArea = global.workspace_manager.get_active_workspace().get_work_area_for_monitor(monitor);

            window.unmaximize(Meta.MaximizeFlags.BOTH);

            let x, y, width, height;
            "@ + "if ('"@ + position + "' === 'left') {"@ + "
                x = workArea.x;
                y = workArea.y;
                width = Math.floor(workArea.width / 2);
                height = workArea.height;
            "@ + "} else if ('"@ + position + "' === 'right') {"@ + "
                "@ + "x = workArea.x + Math.floor(workArea.width / 2);"@ + "
                y = workArea.y;
                width = Math.ceil(workArea.width / 2);
                height = workArea.height;
            } else {
                'invalid position: must be left or right';
            }

            if (x !== undefined) {
                window.move_resize_frame(false, x, y, width, height);
                "@) + ("'snapped to "@ + position + "';"@) + ("
            } else {
                'invalid position: must be left or right';
            }
        } else {
            'window not found';
        }
    "@));
    }
}
} // verus!

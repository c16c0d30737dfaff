//! The key bindings file of the game.

use crate::game::installation::Edition;
use crate::text::{
    chars_of, decimal, digits_end, find_digits_end, find_line_end, is_digit, lemma_line_end_is_behind, line_end,
    number_at, read_number, string_of, to_decimal,
};
use vstd::prelude::*;

verus! {

/// The key bindings of the game: for each of its fourteen actions, the code
/// of the key and the code of the pad button that trigger it.
pub struct InputConfig {
    pub keyboard: [u8; 14],
    pub joystick: [u8; 14],
}

/// The text that precedes the code of action `i` in the file.
pub open spec fn action_label(i: int) -> Seq<char> {
    if i == 0 {
        "1. \"Select\"   "@
    } else if i == 1 {
        "2. \"Exit\"     "@
    } else if i == 2 {
        "3. \"Misc\"     "@
    } else if i == 3 {
        "4. \"Menu\"     "@
    } else if i == 4 {
        "5. \"Toggle\"   "@
    } else if i == 5 {
        "6. \"Trigger\"  "@
    } else if i == 6 {
        "7. \"RotLt\"    "@
    } else if i == 7 {
        "8. \"RotRt\"    "@
    } else if i == 8 {
        "9. \"Start\"    "@
    } else if i == 9 {
        "10. \"Select\"  "@
    } else if i == 10 {
        "11. \"Up\"      "@
    } else if i == 11 {
        "12. \"Down\"    "@
    } else if i == 12 {
        "13. \"Left\"    "@
    } else {
        "14. \"Right\"   "@
    }
}

/// The line of the file that binds action `i` to `code`.
pub open spec fn binding_line(i: int, code: u8) -> Seq<char> {
    action_label(i) + decimal(code as nat) + "\r\n"@
}

/// The lines that bind the first `n` actions to the given codes.
pub open spec fn binding_lines(codes: Seq<u8>, n: int) -> Seq<char>
    decreases n,
{
    if n <= 0 {
        Seq::empty()
    } else {
        binding_lines(codes, n - 1) + binding_line(n - 1, codes[n - 1])
    }
}

/// The contents of the key bindings file.
pub open spec fn input_config_text(keyboard: Seq<u8>, joystick: Seq<u8>) -> Seq<char> {
    "Keyboard\r\n"@ + binding_lines(keyboard, 14) + "Joystick\r\n"@ + binding_lines(joystick, 14)
}

/// The key codes that every edition starts with.
pub open spec fn default_keyboard() -> Seq<u8> {
    seq![32u8, 45, 30, 17, 16, 18, 44, 46, 31, 33, 200, 208, 203, 205]
}

/// The pad buttons that an edition starts with.
pub open spec fn default_joystick(edition: Edition) -> Seq<u8> {
    if edition == Edition::Standard {
        seq![226u8, 225, 224, 227, 228, 229, 230, 231, 232, 233, 252, 253, 254, 255]
    } else {
        seq![225u8, 224, 226, 227, 228, 229, 232, 233, 230, 231, 252, 253, 254, 255]
    }
}

/// Why a text holds no key bindings.
#[derive(Clone, Copy, Debug, PartialEq, Eq, Structural)]
pub enum InputError {
    /// The text binds fewer actions than the file has lines for.
    MissingEntries,
}

/// One line of the file, as far as it is read: the action, counted from
/// zero, and the code that it is bound to.
pub ghost struct Binding {
    pub action: int,
    pub code: u8,
}

/// How many bindings a file holds: fourteen for the keyboard, then fourteen
/// for the pad.
pub open spec fn entries_wanted() -> int {
    28
}

/// The first place from `from` on and before `end` that holds a digit;
/// `end` where none does.
pub open spec fn next_digit(text: Seq<char>, from: int, end: int) -> int
    decreases end - from,
{
    if from >= end || is_digit(text[from]) {
        from
    } else {
        next_digit(text, from + 1, end)
    }
}

/// What the line from `from` up to `end` binds. A line binds something
/// where it holds two numbers, the first of them the number of an action,
/// from one to fourteen, and the second a code, up to 255. What stands
/// around the two numbers, and behind them, is not read.
pub open spec fn binding_at(text: Seq<char>, from: int, end: int) -> Option<Binding> {
    let action_from = next_digit(text, from, end);
    let action_to = digits_end(text, action_from, end);
    let code_from = next_digit(text, action_to, end);
    let code_to = digits_end(text, code_from, end);
    let action = number_at(text, action_from, action_to);
    let code = number_at(text, code_from, code_to);
    if action_from < end && code_from < end && 1 <= action <= 14 && code <= 255 {
        Some(Binding { action: action - 1, code: code as u8 })
    } else {
        None
    }
}

/// What the lines from place `from` on bind, in their order. Lines that
/// bind nothing, as the two headings, are passed over.
pub open spec fn bindings_from(text: Seq<char>, from: int) -> Seq<Binding>
    decreases text.len() - from,
{
    if from < 0 || from >= text.len() {
        Seq::empty()
    } else {
        proof {
            lemma_line_end_is_behind(text, from);
        }
        let end = line_end(text, from);
        let rest = if end < text.len() {
            bindings_from(text, end + 1)
        } else {
            Seq::empty()
        };
        match binding_at(text, from, end) {
            Some(binding) => seq![binding] + rest,
            None => rest,
        }
    }
}

/// The codes of the keyboard and of the pad after the first `n` bindings:
/// the first fourteen bindings are the keyboard's, the others the pad's; an
/// action that none of them names is bound to zero, and one that two name
/// to the later code.
pub open spec fn bound_after(bindings: Seq<Binding>, n: int) -> (Seq<u8>, Seq<u8>)
    decreases n,
{
    if n <= 0 {
        (Seq::new(14, |i: int| 0u8), Seq::new(14, |i: int| 0u8))
    } else {
        let before = bound_after(bindings, n - 1);
        let binding = bindings[n - 1];
        if n <= 14 {
            (before.0.update(binding.action, binding.code), before.1)
        } else {
            (before.0, before.1.update(binding.action, binding.code))
        }
    }
}

/// What a text is read as: the bindings of its first twenty-eight lines
/// that bind something, or an error where it has fewer such lines.
pub open spec fn input_config_of(text: Seq<char>) -> Result<(Seq<u8>, Seq<u8>), InputError> {
    let bindings = bindings_from(text, 0);
    if bindings.len() >= entries_wanted() {
        Ok(bound_after(bindings, entries_wanted()))
    } else {
        Err(InputError::MissingEntries)
    }
}

/// What is bound after `n` bindings depends on these alone.
pub proof fn lemma_bound_after_reads_a_prefix(first: Seq<Binding>, second: Seq<Binding>, n: int)
    requires
        n <= first.len(),
        n <= second.len(),
        forall|i: int| 0 <= i < n ==> first[i] == second[i],
    ensures
        bound_after(first, n) == bound_after(second, n),
    decreases n,
{
    if n > 0 {
        lemma_bound_after_reads_a_prefix(first, second, n - 1);
    }
}

/// Finds the next digit of a line.
fn find_digit(chars: &Vec<char>, from: usize, end: usize) -> (at: usize)
    requires
        from <= end <= chars.len(),
    ensures
        at == next_digit(chars@, from as int, end as int),
        from <= at <= end,
{
    let mut i: usize = from;
    while i < end && !('0' <= chars[i] && chars[i] <= '9')
        invariant
            from <= i <= end <= chars.len(),
            next_digit(chars@, from as int, end as int) == next_digit(chars@, i as int, end as int),
        decreases end - i,
    {
        i += 1;
    }
    i
}

/// Reads what a line binds.
fn read_binding(chars: &Vec<char>, from: usize, end: usize) -> (binding: Option<(usize, u8)>)
    requires
        from <= end <= chars.len(),
    ensures
        match binding {
            Some((action, code)) => binding_at(chars@, from as int, end as int) == Some(
                Binding { action: action as int, code },
            ) && action < 14,
            None => binding_at(chars@, from as int, end as int) is None,
        },
{
    let action_from = find_digit(chars, from, end);
    let action_to = find_digits_end(chars, action_from, end);
    let code_from = find_digit(chars, action_to, end);
    let code_to = find_digits_end(chars, code_from, end);
    let action = read_number(chars, action_from, action_to);
    let code = read_number(chars, code_from, code_to);
    if action_from < end && code_from < end && 1 <= action && action <= 14 && code <= 255 {
        Some(((action - 1) as usize, code as u8))
    } else {
        None
    }
}

/// The text that precedes the code of action `i` in the file.
fn label(i: usize) -> (text: &'static str)
    requires
        i < 14,
    ensures
        text@ == action_label(i as int),
{
    if i == 0 {
        "1. \"Select\"   "
    } else if i == 1 {
        "2. \"Exit\"     "
    } else if i == 2 {
        "3. \"Misc\"     "
    } else if i == 3 {
        "4. \"Menu\"     "
    } else if i == 4 {
        "5. \"Toggle\"   "
    } else if i == 5 {
        "6. \"Trigger\"  "
    } else if i == 6 {
        "7. \"RotLt\"    "
    } else if i == 7 {
        "8. \"RotRt\"    "
    } else if i == 8 {
        "9. \"Start\"    "
    } else if i == 9 {
        "10. \"Select\"  "
    } else if i == 10 {
        "11. \"Up\"      "
    } else if i == 11 {
        "12. \"Down\"    "
    } else if i == 12 {
        "13. \"Left\"    "
    } else {
        "14. \"Right\"   "
    }
}

/// Appends the lines that bind the fourteen actions to `codes`.
fn push_bindings(text: &mut String, codes: &[u8; 14])
    ensures
        final(text)@ == old(text)@ + binding_lines(codes@, 14),
{
    let mut i: usize = 0;
    while i < 14
        invariant
            i <= 14,
            text@ == old(text)@ + binding_lines(codes@, i as int),
        decreases 14 - i,
    {
        let ghost before = text@;
        text.append(label(i));
        text.append(string_of(&to_decimal(codes[i] as u64)).as_str());
        text.append("\r\n");
        assert(text@ =~= before + binding_line(i as int, codes@[i as int]));
        assert(text@ =~= old(text)@ + binding_lines(codes@, i + 1));
        i += 1;
    }
}

impl InputConfig {
    /// The key bindings that an edition starts with.
    pub fn new(edition: &Edition) -> (config: InputConfig)
        ensures
            config.keyboard@ == default_keyboard(),
            config.joystick@ == default_joystick(*edition),
    {
        let config = InputConfig {
            keyboard: [32, 45, 30, 17, 16, 18, 44, 46, 31, 33, 200, 208, 203, 205],
            joystick: if *edition == Edition::Standard {
                [226, 225, 224, 227, 228, 229, 230, 231, 232, 233, 252, 253, 254, 255]
            } else {
                [225, 224, 226, 227, 228, 229, 232, 233, 230, 231, 252, 253, 254, 255]
            },
        };
        assert(config.keyboard@ =~= default_keyboard());
        assert(config.joystick@ =~= default_joystick(*edition));
        config
    }

    /// Reads key bindings from the contents of a file.
    ///
    /// The first fourteen lines that bind something are the keyboard's, the
    /// next fourteen the pad's; what follows them is not read. A text with
    /// fewer such lines holds no key bindings.
    pub fn from_text(contents: &str) -> (config: Result<InputConfig, InputError>)
        ensures
            match config {
                Ok(c) => input_config_of(contents@) == Ok::<(Seq<u8>, Seq<u8>), InputError>(
                    (c.keyboard@, c.joystick@),
                ),
                Err(e) => input_config_of(contents@) == Err::<(Seq<u8>, Seq<u8>), InputError>(e),
            },
    {
        let chars = chars_of(contents);
        let mut keyboard: [u8; 14] = [0; 14];
        let mut joystick: [u8; 14] = [0; 14];
        let mut found: usize = 0;
        let mut from: usize = 0;
        let ghost mut seen: Seq<Binding> = Seq::empty();
        assert(keyboard@ =~= bound_after(seen, 0).0);
        assert(joystick@ =~= bound_after(seen, 0).1);
        while from < chars.len() && found < 28
            invariant
                chars@ == contents@,
                found <= 28,
                found == seen.len(),
                bindings_from(chars@, 0) == seen + bindings_from(chars@, from as int),
                keyboard@ == bound_after(seen, found as int).0,
                joystick@ == bound_after(seen, found as int).1,
            decreases chars.len() - from,
        {
            let end = find_line_end(&chars, from);
            let ghost before = seen;
            match read_binding(&chars, from, end) {
                Some((action, code)) => {
                    if found < 14 {
                        keyboard[action] = code;
                    } else {
                        joystick[action] = code;
                    }
                    found += 1;
                    proof {
                        seen = seen.push(Binding { action: action as int, code });
                        lemma_bound_after_reads_a_prefix(before, seen, found - 1);
                        let rest = bindings_from(chars@, from as int).drop_first();
                        assert(seen + rest =~= before + (seq![Binding { action: action as int, code }]
                            + rest));
                    }
                },
                None => {},
            }
            if end < chars.len() {
                from = end + 1;
            } else {
                from = end;
            }
        }
        proof {
            let all = bindings_from(chars@, 0);
            if found < 28 {
                assert(all =~= seen);
            } else {
                lemma_bound_after_reads_a_prefix(seen, all, 28);
            }
        }
        if found >= 28 {
            Ok(InputConfig { keyboard, joystick })
        } else {
            Err(InputError::MissingEntries)
        }
    }

    /// The contents of the key bindings file for these bindings.
    pub fn to_string(&self) -> (text: String)
        ensures
            text@ == input_config_text(self.keyboard@, self.joystick@),
    {
        let mut text = "Keyboard\r\n".to_string();
        push_bindings(&mut text, &self.keyboard);
        text.append("Joystick\r\n");
        push_bindings(&mut text, &self.joystick);
        text
    }
}

} // verus!

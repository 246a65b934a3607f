//! The proxy test settings and the dialog that edits them one field at a
//! time.
use vstd::prelude::*;
use crate::input::{InputBox, applied_edit, input_request, spec_input_request};
use crate::key::{Key, KeyInput, MOD_CONTROL};
use crate::text::{
    append_str, chars_of, count_char, count_of_char, decimal_text, first_index_of, has_prefix,
    index_of_char, lemma_count_char_concat, lemma_decimal_text, lemma_first_index_after,
    lemma_first_index_of, lemma_parse_decimal, parse_u64, parse_u64_spec, str_starts_with,
    string_from_range, trim, trim_spec, u64_text,
};
use crate::config::lemma_no_char_count;
use crate::url_support::{parse_url, url_error_text, url_parses};

use crate::shortcut::{parts_view, shortcuts_match, Fragment, Shortcut};
verus! {

/// The settings of proxy latency tests.
#[derive(Debug)]
pub struct ProxySetting {
    pub test_url: String,
    /// Timeout in milliseconds.
    pub test_timeout: u64,
    /// Latency bounds `(good, bad)` in milliseconds.
    pub threshold: (u64, u64),
}

impl Default for ProxySetting {
    fn default() -> (r: Self)
        ensures
            r.test_url@ == "https://www.gstatic.com/generate_204"@,
            r.test_timeout == 5000,
            r.threshold == (500u64, 1000u64),
    {
        ProxySetting {
            test_url: "https://www.gstatic.com/generate_204".to_string(),
            test_timeout: 5000,
            threshold: (500, 1000),
        }
    }
}

/// The fields of the dialog, in order.
#[derive(Debug, Clone, Copy, PartialEq, Eq, Structural)]
pub enum ProxySettingField {
    TestUrl,
    TestTimeout,
    Threshold,
}

impl Default for ProxySettingField {
    fn default() -> (r: Self)
        ensures
            r == ProxySettingField::TestUrl,
    {
        ProxySettingField::TestUrl
    }
}

/// The text a field shows for a setting.
pub open spec fn field_text(f: ProxySettingField, s: ProxySetting) -> Seq<char> {
    match f {
        ProxySettingField::TestUrl => s.test_url@,
        ProxySettingField::TestTimeout => decimal_text(s.test_timeout as nat),
        ProxySettingField::Threshold => decimal_text(s.threshold.0 as nat) + ","@ + decimal_text(
            s.threshold.1 as nat,
        ),
    }
}

/// The field after `f`, wrapping around.
pub open spec fn next_field(f: ProxySettingField) -> ProxySettingField {
    match f {
        ProxySettingField::TestUrl => ProxySettingField::TestTimeout,
        ProxySettingField::TestTimeout => ProxySettingField::Threshold,
        ProxySettingField::Threshold => ProxySettingField::TestUrl,
    }
}

/// The field before `f`, wrapping around.
pub open spec fn prev_field(f: ProxySettingField) -> ProxySettingField {
    match f {
        ProxySettingField::TestUrl => ProxySettingField::Threshold,
        ProxySettingField::TestTimeout => ProxySettingField::TestUrl,
        ProxySettingField::Threshold => ProxySettingField::TestTimeout,
    }
}

impl ProxySettingField {
    /// The field after this one, wrapping around.
    pub fn next(&self) -> (r: Self)
        ensures
            r == next_field(*self),
    {
        match self {
            ProxySettingField::TestUrl => ProxySettingField::TestTimeout,
            ProxySettingField::TestTimeout => ProxySettingField::Threshold,
            ProxySettingField::Threshold => ProxySettingField::TestUrl,
        }
    }

    /// The field before this one, wrapping around.
    pub fn prev(&self) -> (r: Self)
        ensures
            r == prev_field(*self),
    {
        match self {
            ProxySettingField::TestUrl => ProxySettingField::Threshold,
            ProxySettingField::TestTimeout => ProxySettingField::TestUrl,
            ProxySettingField::Threshold => ProxySettingField::TestTimeout,
        }
    }

    /// The title of the field.
    pub fn title(&self) -> (r: &'static str)
        ensures
            r == match *self {
                ProxySettingField::TestUrl => "Test URL",
                ProxySettingField::TestTimeout => "Test Timeout (ms)",
                ProxySettingField::Threshold => "Threshold (good,bad)",
            },
    {
        match self {
            ProxySettingField::TestUrl => "Test URL",
            ProxySettingField::TestTimeout => "Test Timeout (ms)",
            ProxySettingField::Threshold => "Threshold (good,bad)",
        }
    }

    /// The text the field shows for a setting.
    pub fn value(&self, setting: &ProxySetting) -> (r: String)
        ensures
            r@ == field_text(*self, *setting),
    {
        match self {
            ProxySettingField::TestUrl => setting.test_url.clone(),
            ProxySettingField::TestTimeout => u64_text(setting.test_timeout),
            ProxySettingField::Threshold => {
                let mut s = u64_text(setting.threshold.0);
                append_str(&mut s, ",");
                let b = u64_text(setting.threshold.1);
                append_str(&mut s, b.as_str());
                s
            },
        }
    }
}

/// Why the text of the threshold field is refused, if it is: not two
/// numbers around one comma (0), not both numbers (1), not `0 < good < bad`
/// (2).
pub open spec fn threshold_refusal(input: Seq<char>) -> Option<u8> {
    if count_char(input, ',') != 1 {
        Some(0)
    } else {
        let k = first_index_of(input, ',');
        let a = parse_u64_spec(trim_spec(input.subrange(0, k)));
        let b = parse_u64_spec(trim_spec(input.subrange(k + 1, input.len() as int)));
        if a is None || b is None {
            Some(1)
        } else if !(a->0 > 0 && a->0 < b->0) {
            Some(2)
        } else {
            None
        }
    }
}

/// The threshold the text of the threshold field gives, when accepted.
pub open spec fn threshold_value(input: Seq<char>) -> (u64, u64) {
    let k = first_index_of(input, ',');
    (
        parse_u64_spec(trim_spec(input.subrange(0, k)))->0,
        parse_u64_spec(trim_spec(input.subrange(k + 1, input.len() as int)))->0,
    )
}

/// The message refusing the text of a field, if it is refused.
pub open spec fn submit_error(f: ProxySettingField, input: Seq<char>) -> Option<Seq<char>> {
    match f {
        ProxySettingField::TestUrl => {
            let u = trim_spec(input);
            if u.len() == 0 {
                Some("URL cannot be empty"@)
            } else if !has_prefix(u, "http://"@) && !has_prefix(u, "https://"@) {
                Some("URL must start with http:// or https://"@)
            } else if !url_parses(u) {
                Some("Invalid URL: "@ + url_error_text(u))
            } else {
                None
            }
        },
        ProxySettingField::TestTimeout => match parse_u64_spec(trim_spec(input)) {
            Some(v) => if v > 0 && v <= 60000 {
                None
            } else {
                Some("Timeout must be between 1 and 60000 milliseconds"@)
            },
            None => Some("Timeout must be a valid number"@),
        },
        ProxySettingField::Threshold => match threshold_refusal(input) {
            Some(0) => Some("Threshold must be two comma-separated numbers (e.g. 500,800)"@),
            Some(1) => Some("Threshold values must be valid positive numbers"@),
            Some(_) => Some("Threshold must satisfy good < bad"@),
            None => None,
        },
    }
}

/// Whether `after` is the setting `before` with the accepted text of a field
/// stored.
pub open spec fn submitted(f: ProxySettingField, input: Seq<char>, before: ProxySetting, after: ProxySetting) -> bool {
    match f {
        ProxySettingField::TestUrl => after.test_url@ == trim_spec(input) && after.test_timeout
            == before.test_timeout && after.threshold == before.threshold,
        ProxySettingField::TestTimeout => after.test_url == before.test_url && after.test_timeout
            == parse_u64_spec(trim_spec(input))->0 && after.threshold == before.threshold,
        ProxySettingField::Threshold => after.test_url == before.test_url && after.test_timeout
            == before.test_timeout && after.threshold == threshold_value(input),
    }
}

/// Checks the text of a field and, when it is accepted, stores it in the
/// setting; a refused text changes nothing.
pub fn submit_field(field: ProxySettingField, input: &str, setting: &mut ProxySetting) -> (r: Result<(), String>)
    ensures
        match submit_error(field, input@) {
            Some(m) => r matches Err(e) && e@ == m && *final(setting) == *old(setting),
            None => r is Ok && submitted(field, input@, *old(setting), *final(setting)),
        },
{
    match field {
        ProxySettingField::TestUrl => {
            let url = trim(input);
            if chars_of(url).len() == 0 {
                return Err("URL cannot be empty".to_string());
            }
            if !str_starts_with(url, "http://") && !str_starts_with(url, "https://") {
                return Err("URL must start with http:// or https://".to_string());
            }
            match parse_url(url) {
                Ok(_) => {
                    setting.test_url = url.to_string();
                    Ok(())
                },
                Err(text) => {
                    let mut m = "Invalid URL: ".to_string();
                    append_str(&mut m, text.as_str());
                    Err(m)
                },
            }
        },
        ProxySettingField::TestTimeout => match parse_u64(trim(input)) {
            Some(v) => {
                if v > 0 && v <= 60000 {
                    setting.test_timeout = v;
                    Ok(())
                } else {
                    Err("Timeout must be between 1 and 60000 milliseconds".to_string())
                }
            },
            None => Err("Timeout must be a valid number".to_string()),
        },
        ProxySettingField::Threshold => {
            let v = chars_of(input);
            if count_of_char(&v, ',') != 1 {
                return Err("Threshold must be two comma-separated numbers (e.g. 500,800)".to_string());
            }
            let k = index_of_char(&v, ',');
            proof {
                lemma_first_index_of(v@, ',');
                if k == v@.len() {
                    lemma_no_char_count(v@, ',');
                }
            }
            let left = string_from_range(&v, 0, k);
            let right = string_from_range(&v, k + 1, v.len());
            let a = parse_u64(trim(left.as_str()));
            let b = parse_u64(trim(right.as_str()));
            match (a, b) {
                (Some(x), Some(y)) => {
                    if x > 0 && x < y {
                        setting.threshold = (x, y);
                        Ok(())
                    } else {
                        Err("Threshold must satisfy good < bad".to_string())
                    }
                },
                _ => Err("Threshold values must be valid positive numbers".to_string()),
            }
        },
    }
}

/// A setting the dialog can hold: an accepted URL without surrounding white
/// space, a timeout of 1 to 60000 ms, and `0 < good < bad`.
pub open spec fn setting_ok(s: ProxySetting) -> bool {
    &&& submit_error(ProxySettingField::TestUrl, s.test_url@) is None
    &&& trim_spec(s.test_url@) == s.test_url@
    &&& 0 < s.test_timeout <= 60000
    &&& 0 < s.threshold.0 < s.threshold.1
}

proof fn lemma_threshold_text(a: u64, b: u64)
    ensures
        threshold_refusal(decimal_text(a as nat) + ","@ + decimal_text(b as nat)) == if a > 0 && a < b {
            None::<u8>
        } else {
            Some(2u8)
        },
        threshold_value(decimal_text(a as nat) + ","@ + decimal_text(b as nat)) == (a, b),
{
    let x = decimal_text(a as nat);
    let y = decimal_text(b as nat);
    reveal_strlit(",");
    let t = x + ","@ + y;
    assert(","@ =~= seq![',']);
    lemma_decimal_text(a as nat);
    lemma_decimal_text(b as nat);
    lemma_parse_decimal(a);
    lemma_parse_decimal(b);
    assert forall|j: int| 0 <= j < x.len() implies x[j] != ',' by {
        assert('0' <= x[j] <= '9');
    }
    assert forall|j: int| 0 <= j < y.len() implies y[j] != ',' by {
        assert('0' <= y[j] <= '9');
    }
    lemma_no_char_count(x, ',');
    lemma_no_char_count(y, ',');
    lemma_count_char_concat(x, seq![','], ',');
    lemma_count_char_concat(x + seq![','], y, ',');
    assert(count_char(seq![','], ',') == 1) by {
        let one = seq![','];
        assert(one.drop_last() =~= Seq::<char>::empty());
        assert(count_char(one.drop_last(), ',') == 0);
        assert(one.last() == ',');
    }
    lemma_first_index_after(x, y, ',');
    assert(t.subrange(0, x.len() as int) =~= x);
    assert(t.subrange(x.len() as int + 1, t.len() as int) =~= y);
}

/// Confirming a field without editing it is accepted and leaves the setting
/// as it was: the text each field shows reads back as the value it shows.
pub proof fn law_confirm_unedited_field_keeps_setting(
    f: ProxySettingField,
    before: ProxySetting,
    after: ProxySetting,
)
    requires
        setting_ok(before),
        submitted(f, field_text(f, before), before, after),
    ensures
        submit_error(f, field_text(f, before)) is None,
        after.test_url@ == before.test_url@,
        after.test_timeout == before.test_timeout,
        after.threshold == before.threshold,
{
    match f {
        ProxySettingField::TestUrl => {},
        ProxySettingField::TestTimeout => {
            lemma_parse_decimal(before.test_timeout);
        },
        ProxySettingField::Threshold => {
            lemma_threshold_text(before.threshold.0, before.threshold.1);
        },
    }
}

/// What the dialog asks of the caller after a key press.
#[derive(Debug, Clone, Copy, PartialEq, Eq, Structural)]
pub enum ProxySettingKey {
    /// Nothing more to do.
    Stay,
    /// Quit the program.
    Quit,
    /// The dialog closed without saving.
    Closed,
    /// The dialog saved and closed: the proxies must be refreshed.
    Saved,
}

/// The dialog editing the proxy test settings.
#[derive(Debug)]
pub struct ProxySettingComponent {
    pub show: bool,
    pub focused: ProxySettingField,
    /// The text of the focused field.
    pub input: InputBox,
    pub error: Option<String>,
}

impl ProxySettingComponent {
    /// A hidden dialog.
    pub fn new() -> (r: Self)
        ensures
            !r.show,
            r.focused == ProxySettingField::TestUrl,
            r.input.wf(),
            r.input.text().len() == 0,
            r.error is None,
    {
        ProxySettingComponent {
            show: false,
            focused: ProxySettingField::TestUrl,
            input: InputBox::new(String::new()),
            error: None,
        }
    }

    /// Opens the dialog on the first field, showing its value.
    pub fn show(&mut self, setting: &ProxySetting)
        ensures
            final(self).show,
            final(self).focused == ProxySettingField::TestUrl,
            final(self).input.wf(),
            final(self).input.text() == field_text(ProxySettingField::TestUrl, *setting),
            final(self).error is None,
    {
        self.show = true;
        self.focused = ProxySettingField::default();
        self.input = InputBox::new(self.focused.value(setting));
        self.error = None;
    }

    /// Closes the dialog and clears its input and error.
    pub fn close(&mut self)
        ensures
            !final(self).show,
            final(self).focused == old(self).focused,
            final(self).input.wf(),
            final(self).input.text().len() == 0,
            final(self).error is None,
    {
        self.show = false;
        self.input.reset();
        self.error = None;
    }

    /// Checks the focused field's text and stores it when accepted.
    pub fn submit(&self, setting: &mut ProxySetting) -> (r: Result<(), String>)
        ensures
            match submit_error(self.focused, self.input.text()) {
                Some(m) => r matches Err(e) && e@ == m && *final(setting) == *old(setting),
                None => r is Ok && submitted(self.focused, self.input.text(), *old(setting), *final(setting)),
            },
    {
        let text = self.input.value();
        submit_field(self.focused, text.as_str(), setting)
    }

    /// Stores the focused field and moves to `to`; when the text is refused
    /// the dialog stays on the field and shows why.
    fn move_to(&mut self, to: ProxySettingField, setting: &mut ProxySetting)
        requires
            old(self).input.wf(),
        ensures
            final(self).input.wf(),
            final(self).show == old(self).show,
            match submit_error(old(self).focused, old(self).input.text()) {
                Some(m) => final(self).error matches Some(e) && e@ == m && final(self).focused
                    == old(self).focused && final(self).input == old(self).input
                    && *final(setting) == *old(setting),
                None => {
                    &&& submitted(old(self).focused, old(self).input.text(), *old(setting), *final(setting))
                    &&& final(self).error is None
                    &&& final(self).focused == to
                    &&& final(self).input.text() == field_text(to, *final(setting))
                },
            },
    {
        let result = self.submit(setting);
        match result {
            Err(e) => {
                self.error = Some(e);
            },
            Ok(()) => {
                self.error = None;
                self.focused = to;
                self.input = InputBox::new(to.value(setting));
            },
        }
    }

    /// Stores the focused field and moves to the next one.
    pub fn next(&mut self, setting: &mut ProxySetting)
        requires
            old(self).input.wf(),
        ensures
            final(self).input.wf(),
            final(self).show == old(self).show,
            match submit_error(old(self).focused, old(self).input.text()) {
                Some(m) => final(self).error matches Some(e) && e@ == m && final(self).focused
                    == old(self).focused && final(self).input == old(self).input
                    && *final(setting) == *old(setting),
                None => {
                    &&& submitted(old(self).focused, old(self).input.text(), *old(setting), *final(setting))
                    &&& final(self).error is None
                    &&& final(self).focused == next_field(old(self).focused)
                    &&& final(self).input.text() == field_text(next_field(old(self).focused), *final(setting))
                },
            },
    {
        let to = self.focused.next();
        self.move_to(to, setting);
    }

    /// Stores the focused field and moves to the previous one.
    pub fn prev(&mut self, setting: &mut ProxySetting)
        requires
            old(self).input.wf(),
        ensures
            final(self).input.wf(),
            final(self).show == old(self).show,
            match submit_error(old(self).focused, old(self).input.text()) {
                Some(m) => final(self).error matches Some(e) && e@ == m && final(self).focused
                    == old(self).focused && final(self).input == old(self).input
                    && *final(setting) == *old(setting),
                None => {
                    &&& submitted(old(self).focused, old(self).input.text(), *old(setting), *final(setting))
                    &&& final(self).error is None
                    &&& final(self).focused == prev_field(old(self).focused)
                    &&& final(self).input.text() == field_text(prev_field(old(self).focused), *final(setting))
                },
            },
    {
        let to = self.focused.prev();
        self.move_to(to, setting);
    }

    /// Handles a key press: `Ctrl+c` quits, `q` and `Esc` close, `Tab` and
    /// `BackTab` move between fields, `Enter` saves and closes (or shows why
    /// it cannot), and other keys edit the input.
    pub fn handle_key_event(&mut self, key: KeyInput, setting: &mut ProxySetting) -> (r: ProxySettingKey)
        requires
            old(self).input.wf(),
        ensures
            final(self).input.wf(),
            key.code == Key::Char('c') && key.mods.bits & MOD_CONTROL == MOD_CONTROL ==> r == ProxySettingKey::Quit
                && *final(setting) == *old(setting),
            !(key.code == Key::Char('c') && key.mods.bits & MOD_CONTROL == MOD_CONTROL) ==> match key.code {
                Key::Char('q') | Key::Esc => r == ProxySettingKey::Closed && !final(self).show
                    && *final(setting) == *old(setting),
                Key::Tab | Key::BackTab => r == ProxySettingKey::Stay,
                Key::Enter => match submit_error(old(self).focused, old(self).input.text()) {
                    Some(m) => r == ProxySettingKey::Stay && *final(setting) == *old(setting)
                        && (final(self).error matches Some(e) && e@ == m),
                    None => r == ProxySettingKey::Saved && !final(self).show && submitted(
                        old(self).focused,
                        old(self).input.text(),
                        *old(setting),
                        *final(setting),
                    ),
                },
                _ => r == ProxySettingKey::Stay && *final(setting) == *old(setting) && match spec_input_request(key) {
                    Some(q) => applied_edit(old(self).input, final(self).input, q),
                    None => final(self).input == old(self).input,
                },
            },
    {
        match key.code {
            Key::Char('c') => {
                if key.mods.contains(MOD_CONTROL) {
                    return ProxySettingKey::Quit;
                }
            },
            _ => {},
        }
        match key.code {
            Key::Char('q') | Key::Esc => {
                self.close();
                ProxySettingKey::Closed
            },
            Key::Tab => {
                self.next(setting);
                ProxySettingKey::Stay
            },
            Key::BackTab => {
                self.prev(setting);
                ProxySettingKey::Stay
            },
            Key::Enter => {
                let result = self.submit(setting);
                match result {
                    Err(e) => {
                        self.error = Some(e);
                        ProxySettingKey::Stay
                    },
                    Ok(()) => {
                        self.error = None;
                        self.close();
                        ProxySettingKey::Saved
                    },
                }
            },
            _ => {
                match input_request(key) {
                    Some(q) => self.input.handle(q),
                    None => {},
                }
                ProxySettingKey::Stay
            },
        }
    }
}

/// The footer labels of the proxy setting dialog: moving the focus and confirming.
pub open spec fn proxy_setting_shortcut_labels() -> Seq<Seq<(bool, Seq<char>)>> {
    seq![
        seq![(true, "⇧⇤"@), (false, " nav "@), (true, "⇥"@)],
        seq![(false, "confirm "@), (true, "↵"@)],
    ]
}

impl ProxySettingComponent {
    /// The footer labels.
    pub fn shortcuts(&self) -> (r: Vec<Shortcut>)
        ensures
            shortcuts_match(r@, proxy_setting_shortcut_labels()),
    {
        let s0 = Shortcut::new(vec![Fragment::hl("⇧⇤"), Fragment::raw(" nav "), Fragment::hl("⇥")]);
        let s1 = Shortcut::new(vec![Fragment::raw("confirm "), Fragment::hl("↵")]);
        proof {
            assert(parts_view(s0.parts@) =~= seq![(true, "⇧⇤"@), (false, " nav "@), (true, "⇥"@)]);
            assert(parts_view(s1.parts@) =~= seq![(false, "confirm "@), (true, "↵"@)]);
        }
        let r = vec![s0, s1];
        assert(shortcuts_match(r@, proxy_setting_shortcut_labels()));
        r
    }
}

} // verus!

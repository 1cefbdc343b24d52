//! Structured log records and their single-line JSON rendering: severity
//! remapping by (component, severity), the fixed key order, and the
//! explicit sentinels for a missing source location.

use vstd::prelude::*;
use vstd::string::StringExecFns;
use crate::severity::Severity;
use crate::timefmt::{dec_seq, Timestamp};

verus! {

/// What `serde_json` produces for a string slice: the JSON string literal,
/// quotes and escapes included. A function of the characters alone.
pub uninterp spec fn json_string_of(s: Seq<char>) -> Seq<char>;

/// Relies on `serde_json::to_string` applied to a string slice: it writes an
/// opening quote, the escaped characters, and a closing quote, depending on
/// the input characters alone; serializing a string slice never fails.
#[verifier::external_body]
fn json_quote(s: &str) -> (r: String)
    ensures
        r@ == json_string_of(s@),
{
    serde_json::to_string(s).unwrap()
}

/// One log record, carried as plain values.
pub struct LogRecord {
    /// Wall-clock instant of the call, UTC.
    pub timestamp: Timestamp,
    /// Raw severity of the call.
    pub severity: Severity,
    /// Originating subsystem, from the call site's static tag.
    pub component: String,
    /// Source file, when the call site provides one.
    pub file: Option<String>,
    /// Source line, when the call site provides one.
    pub line: Option<u64>,
    /// Free-form message.
    pub message: String,
}

/// One rule of the severity remapping table: a (component, raw severity)
/// pair and the display label it maps to.
pub struct RemapRule {
    pub component: String,
    pub severity: Severity,
    pub label: String,
}

/// Static table mapping (component, raw severity) pairs to display labels.
pub struct RemapTable {
    pub rules: Vec<RemapRule>,
}

/// Whether one rule matches a (component, severity) pair.
pub open spec fn rule_matches(rule: RemapRule, component: Seq<char>, severity: Severity) -> bool {
    rule.component@ == component && rule.severity == severity
}

/// The label of the first matching rule, if any.
pub open spec fn spec_lookup(
    rules: Seq<RemapRule>,
    component: Seq<char>,
    severity: Severity,
) -> Option<Seq<char>>
    decreases rules.len(),
{
    if rules.len() == 0 {
        None
    } else if rule_matches(rules[0], component, severity) {
        Some(rules[0].label@)
    } else {
        spec_lookup(rules.skip(1), component, severity)
    }
}

/// The display label for a pair: the mapped label when the table holds the
/// pair, the raw severity's canonical name otherwise.
pub open spec fn spec_display_label(
    rules: Seq<RemapRule>,
    component: Seq<char>,
    severity: Severity,
) -> Seq<char> {
    match spec_lookup(rules, component, severity) {
        Some(label) => label,
        None => severity.spec_canonical_name(),
    }
}

impl RemapTable {
    /// A table with no rules: every pair displays its canonical name.
    pub fn new() -> (r: RemapTable)
        ensures
            r.rules@.len() == 0,
    {
        RemapTable { rules: Vec::new() }
    }

    /// Appends one rule to the table.
    pub fn add_rule(&mut self, component: String, severity: Severity, label: String)
        ensures
            final(self).rules@ == old(self).rules@.push(
                RemapRule { component, severity, label },
            ),
    {
        self.rules.push(RemapRule { component, severity, label });
    }

    /// Resolves the display label for a (component, severity) pair: the
    /// first matching rule's label, or the canonical severity name when no
    /// rule matches.
    pub fn display_label(&self, component: &String, severity: Severity) -> (r: String)
        ensures
            r@ == spec_display_label(self.rules@, component@, severity),
    {
        let n = self.rules.len();
        let mut i: usize = 0;
        proof {
            assert(self.rules@.skip(0) =~= self.rules@);
        }
        while i < n
            invariant
                0 <= i <= n,
                n == self.rules@.len(),
                spec_lookup(self.rules@, component@, severity) == spec_lookup(
                    self.rules@.skip(i as int),
                    component@,
                    severity,
                ),
            decreases n - i,
        {
            let rule = &self.rules[i];
            proof {
                assert(self.rules@.skip(i as int)[0] == self.rules@[i as int]);
                assert(self.rules@.skip(i as int).skip(1) =~= self.rules@.skip(i as int + 1));
            }
            if rule.component.eq(component) && rule.severity == severity {
                return rule.label.clone();
            }
            i = i + 1;
        }
        proof {
            assert(self.rules@.skip(n as int) =~= Seq::<RemapRule>::empty());
        }
        severity.canonical_name().to_owned()
    }
}

/// The sentinel rendered when a record carries no source file.
pub open spec fn spec_file_sentinel() -> Seq<char> {
    "<unnamed>"@
}

/// The file field of a record, or the sentinel.
pub open spec fn spec_file_of(record: LogRecord) -> Seq<char> {
    match record.file {
        Some(f) => f@,
        None => spec_file_sentinel(),
    }
}

/// The line field of a record, or zero.
pub open spec fn spec_line_of(record: LogRecord) -> nat {
    match record.line {
        Some(l) => l as nat,
        None => 0,
    }
}

/// The single JSON line for given rendered fields, with the fixed key set in
/// the fixed order: timestamp, level, component, file, line, message. Every
/// string value goes through `json_string_of`; the line number is a bare
/// JSON integer.
pub open spec fn spec_json_line(
    timestamp: Seq<char>,
    level: Seq<char>,
    component: Seq<char>,
    file: Seq<char>,
    line: nat,
    message: Seq<char>,
) -> Seq<char> {
    "{\"timestamp\":"@ + json_string_of(timestamp) + ",\"level\":"@ + json_string_of(level)
        + ",\"component\":"@ + json_string_of(component) + ",\"file\":"@ + json_string_of(file)
        + ",\"line\":"@ + dec_seq(line) + ",\"message\":"@ + json_string_of(message) + "}"@
}

/// The formatted line of a record under a remapping table.
pub open spec fn spec_format_record(rules: Seq<RemapRule>, record: LogRecord) -> Seq<char> {
    spec_json_line(
        record.timestamp.spec_render(),
        spec_display_label(rules, record.component@, record.severity),
        record.component@,
        spec_file_of(record),
        spec_line_of(record),
        record.message@,
    )
}

/// Formats one record as a single JSON line: fixed key order, display label
/// resolved through the remapping table, explicit sentinels for a missing
/// source location. Pure string construction; writing the line is the
/// caller's side effect.
pub fn format_record(table: &RemapTable, record: &LogRecord) -> (r: String)
    requires
        record.timestamp.valid(),
    ensures
        r@ == spec_format_record(table.rules@, *record),
{
    let level = table.display_label(&record.component, record.severity);
    let ts = record.timestamp.render();
    let mut r = "{\"timestamp\":".to_owned();
    let piece = json_quote(ts.as_str());
    r.append(piece.as_str());
    r.append(",\"level\":");
    let piece = json_quote(level.as_str());
    r.append(piece.as_str());
    r.append(",\"component\":");
    let piece = json_quote(record.component.as_str());
    r.append(piece.as_str());
    r.append(",\"file\":");
    let piece = match &record.file {
        Some(f) => json_quote(f.as_str()),
        None => json_quote("<unnamed>"),
    };
    r.append(piece.as_str());
    r.append(",\"line\":");
    let line: u64 = match &record.line {
        Some(l) => *l,
        None => 0,
    };
    let piece = crate::timefmt::u64_dec(line);
    r.append(piece.as_str());
    r.append(",\"message\":");
    let piece = json_quote(record.message.as_str());
    r.append(piece.as_str());
    r.append("}");
    proof {
        assert(r@ =~= spec_format_record(table.rules@, *record));
    }
    r
}

} // verus!

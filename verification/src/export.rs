//! CSV export of the statistics ledger: a summary line, the most
//! recent 50 history entries (newest first), and all notes (newest
//! first), with note content quoted when it holds a comma or quote and
//! internal quotes doubled.

use vstd::prelude::*;
use crate::numeric::{dec_digits, format_u64, format_minutes_as_hours, minutes_as_hours_text};
use crate::stats::{NoteV, SessionRecordV, Statistics, StatisticsV};
use crate::text::push_char;

verus! {

pub open spec fn contains_char(s: Seq<char>, c: char) -> bool {
    exists|i: int| 0 <= i < s.len() && s[i] == c
}

/// The text with every double-quote doubled.
pub open spec fn doubled_quotes(s: Seq<char>) -> Seq<char>
    decreases s.len(),
{
    if s.len() == 0 {
        s
    } else if s[0] == '"' {
        seq!['"', '"'] + doubled_quotes(s.drop_first())
    } else {
        seq![s[0]] + doubled_quotes(s.drop_first())
    }
}

/// A CSV field: wrapped in quotes, with internal quotes doubled,
/// exactly when the text holds a comma or a quote; otherwise as is.
pub open spec fn csv_escaped(s: Seq<char>) -> Seq<char> {
    if contains_char(s, ',') || contains_char(s, '"') {
        seq!['"'] + doubled_quotes(s) + seq!['"']
    } else {
        s
    }
}

/// Text holding a comma or a quote is wrapped in quotes with internal
/// quotes doubled; text holding neither passes through unchanged.
pub proof fn lemma_csv_escaping(s: Seq<char>)
    ensures
        (contains_char(s, ',') || contains_char(s, '"')) ==> csv_escaped(s) == seq!['"']
            + doubled_quotes(s) + seq!['"'],
        !contains_char(s, ',') && !contains_char(s, '"') ==> csv_escaped(s) == s,
{
}

proof fn lemma_doubled_quotes_push(s: Seq<char>, c: char)
    ensures
        doubled_quotes(s.push(c)) == doubled_quotes(s) + (if c == '"' {
            seq!['"', '"']
        } else {
            seq![c]
        }),
    decreases s.len(),
{
    let tail = if c == '"' {
        seq!['"', '"']
    } else {
        seq![c]
    };
    if s.len() == 0 {
        assert(s.push(c).len() == 1);
        assert(s.push(c)[0] == c);
        assert(s.push(c).drop_first() =~= Seq::<char>::empty());
        assert(doubled_quotes(s.push(c).drop_first()) == Seq::<char>::empty());
        assert(doubled_quotes(s.push(c)) =~= doubled_quotes(s) + tail);
    } else {
        assert(s.push(c)[0] == s[0]);
        assert(s.push(c).drop_first() =~= s.drop_first().push(c));
        lemma_doubled_quotes_push(s.drop_first(), c);
        assert(doubled_quotes(s.push(c)) =~= doubled_quotes(s) + tail);
    }
}

/// Escapes one CSV field.
pub fn csv_escape(s: &str) -> (r: String)
    ensures
        r@ == csv_escaped(s@),
{
    let n = s.unicode_len();
    let mut needs: bool = false;
    let mut i: usize = 0;
    while i < n
        invariant
            n == s@.len(),
            i <= n,
            needs == (exists|k: int|
                0 <= k < i && (s@[k] == ',' || s@[k] == '"')),
        decreases n - i,
    {
        let c = s.get_char(i);
        if c == ',' || c == '"' {
            needs = true;
        }
        i = i + 1;
    }
    proof {
        assert(needs == (contains_char(s@, ',') || contains_char(s@, '"')));
    }
    if !needs {
        return s.to_owned();
    }
    let mut out = String::new();
    push_char(&mut out, '"');
    let mut j: usize = 0;
    while j < n
        invariant
            n == s@.len(),
            j <= n,
            out@ == seq!['"'] + doubled_quotes(s@.subrange(0, j as int)),
        decreases n - j,
    {
        let c = s.get_char(j);
        let ghost pre = s@.subrange(0, j as int);
        push_char(&mut out, c);
        if c == '"' {
            push_char(&mut out, '"');
        }
        proof {
            lemma_doubled_quotes_push(pre, s@[j as int]);
            assert(s@.subrange(0, j + 1) =~= pre.push(s@[j as int]));
            assert(out@ =~= seq!['"'] + doubled_quotes(s@.subrange(0, j + 1)));
        }
        j = j + 1;
    }
    push_char(&mut out, '"');
    proof {
        assert(s@.subrange(0, n as int) =~= s@);
        assert(out@ =~= csv_escaped(s@));
    }
    out
}

/// One history line: timestamp, phase, duration in minutes, Yes/No.
pub open spec fn session_row(r: SessionRecordV) -> Seq<char> {
    r.timestamp + ","@ + r.phase_type + ","@ + dec_digits(r.duration as int) + ","@ + (if r.completed {
        "Yes"@
    } else {
        "No"@
    }) + "\n"@
}

/// The first `j` history lines of the listing, which walks the history
/// newest first: line number `k` shows entry `len - k`.
pub open spec fn session_rows(h: Seq<SessionRecordV>, j: int) -> Seq<char>
    decreases j,
{
    if j <= 0 {
        Seq::<char>::empty()
    } else {
        session_rows(h, j - 1) + session_row(h[h.len() - j])
    }
}

/// One note line: timestamp, phase, escaped content.
pub open spec fn note_row(n: NoteV) -> Seq<char> {
    n.timestamp + ","@ + n.phase + ","@ + csv_escaped(n.content) + "\n"@
}

/// The first `j` note lines of the listing, newest first.
pub open spec fn note_rows(ns: Seq<NoteV>, j: int) -> Seq<char>
    decreases j,
{
    if j <= 0 {
        Seq::<char>::empty()
    } else {
        note_rows(ns, j - 1) + note_row(ns[ns.len() - j])
    }
}

/// The whole exported document.
pub open spec fn export_csv_spec(st: StatisticsV) -> Seq<char> {
    "Date,Total Sessions,Sessions Today,Work Time (hours),Break Time (hours)\n"@
        + st.last_session_date + ","@ + dec_digits(st.total_sessions as int) + ","@ + dec_digits(
        st.sessions_today as int,
    ) + ","@ + minutes_as_hours_text(st.total_work_time) + ","@ + minutes_as_hours_text(
        st.total_break_time,
    ) + "\n"@ + "\n\nSession History\n"@ + "Timestamp,Phase,Duration (min),Completed\n"@
        + session_rows(
        st.session_history,
        if st.session_history.len() < 50 {
            st.session_history.len() as int
        } else {
            50
        },
    ) + "\n\nNotes\n"@ + "Timestamp,Phase,Content\n"@ + note_rows(
        st.notes,
        st.notes.len() as int,
    )
}

/// Builds the CSV export of the ledger; the embedding program writes
/// it out.
pub fn export_stats_csv(stats: &Statistics) -> (r: String)
    ensures
        r@ == export_csv_spec(stats.deep_view()),
{
    let ghost st = stats.deep_view();
    let mut csv = String::new();
    csv.append("Date,Total Sessions,Sessions Today,Work Time (hours),Break Time (hours)\n");
    csv.append(stats.last_session_date.as_str());
    csv.append(",");
    let t1 = format_u64(stats.total_sessions as u64);
    csv.append(t1.as_str());
    csv.append(",");
    let t2 = format_u64(stats.sessions_today as u64);
    csv.append(t2.as_str());
    csv.append(",");
    let t3 = format_minutes_as_hours(stats.total_work_time);
    csv.append(t3.as_str());
    csv.append(",");
    let t4 = format_minutes_as_hours(stats.total_break_time);
    csv.append(t4.as_str());
    csv.append("\n");
    csv.append("\n\nSession History\n");
    csv.append("Timestamp,Phase,Duration (min),Completed\n");
    let ghost head = csv@;
    let hist_len = stats.session_history.len();
    let count: usize = if hist_len < 50 {
        hist_len
    } else {
        50
    };
    let mut j: usize = 0;
    while j < count
        invariant
            count <= hist_len,
            hist_len == st.session_history.len(),
            st == stats.deep_view(),
            j <= count,
            csv@ == head + session_rows(st.session_history, j as int),
        decreases count - j,
    {
        let idx = hist_len - 1 - j;
        let rec = &stats.session_history[idx];
        csv.append(rec.timestamp.as_str());
        csv.append(",");
        csv.append(rec.phase_type.as_str());
        csv.append(",");
        let d = format_u64(rec.duration);
        csv.append(d.as_str());
        csv.append(",");
        if rec.completed {
            csv.append("Yes");
        } else {
            csv.append("No");
        }
        csv.append("\n");
        proof {
            assert(st.session_history[st.session_history.len() - (j + 1)]
                == stats.session_history@[idx as int].deep_view());
            assert(csv@ =~= head + session_rows(st.session_history, j + 1));
        }
        j = j + 1;
    }
    csv.append("\n\nNotes\n");
    csv.append("Timestamp,Phase,Content\n");
    let ghost head2 = csv@;
    let notes_len = stats.notes.len();
    let mut k: usize = 0;
    while k < notes_len
        invariant
            notes_len == st.notes.len(),
            st == stats.deep_view(),
            k <= notes_len,
            csv@ == head2 + note_rows(st.notes, k as int),
        decreases notes_len - k,
    {
        let idx = notes_len - 1 - k;
        let note = &stats.notes[idx];
        csv.append(note.timestamp.as_str());
        csv.append(",");
        csv.append(note.phase.as_str());
        csv.append(",");
        let esc = csv_escape(note.content.as_str());
        csv.append(esc.as_str());
        csv.append("\n");
        proof {
            assert(st.notes[st.notes.len() - (k + 1)] == stats.notes@[idx as int].deep_view());
            assert(csv@ =~= head2 + note_rows(st.notes, k + 1));
        }
        k = k + 1;
    }
    proof {
        assert(csv@ =~= export_csv_spec(st));
    }
    csv
}

} // verus!

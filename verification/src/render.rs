//! The render stage: a pure projection of the current state into the texts
//! and geometry the display surface draws. Nothing here mutates state; the
//! widget drawing itself happens outside the library.

use vstd::prelude::*;
use vstd::string::*;
use crate::duration::{
    compute_durations, spec_running_display, spec_terminal_display, spec_waiting_display,
};
use crate::filter::FilterMode;
use crate::jobs::{Job, JobView, PropertyView};

verus! {

/// Identifier shortening: up to six characters pass unchanged; a longer
/// identifier shows its first three and last three characters joined by
/// `".."`.
pub open spec fn spec_format_id(s: Seq<char>) -> Seq<char> {
    if s.len() <= 6 {
        s
    } else {
        s.subrange(0, 3) + seq!['.', '.'] + s.subrange(s.len() - 3, s.len() as int)
    }
}

/// The shortened identifier shown in the table's first column.
pub fn format_id(id: &str) -> (r: String)
    ensures
        r@ == spec_format_id(id@),
{
    let n = id.unicode_len();
    if n <= 6 {
        id.to_owned()
    } else {
        let mut s = String::from_str(id.substring_char(0, 3));
        s.append("..");
        s.append(id.substring_char(n - 3, n));
        proof {
            reveal_strlit("..");
            assert(".."@ =~= seq!['.', '.']);
            assert(s@ =~= spec_format_id(id@));
        }
        s
    }
}

/// The human-readable name of a filter mode, for the table title.
pub open spec fn spec_mode_title(mode: FilterMode) -> Seq<char> {
    match mode {
        FilterMode::Default => "Default (W/R)"@,
        FilterMode::Waiting => "Waiting"@,
        FilterMode::Running => "Running"@,
        FilterMode::Completed => "Completed"@,
        FilterMode::Aborted => "Aborted"@,
        FilterMode::All => "All"@,
    }
}

pub fn mode_title(mode: FilterMode) -> (r: &'static str)
    ensures
        r@ == spec_mode_title(mode),
{
    match mode {
        FilterMode::Default => "Default (W/R)",
        FilterMode::Waiting => "Waiting",
        FilterMode::Running => "Running",
        FilterMode::Completed => "Completed",
        FilterMode::Aborted => "Aborted",
        FilterMode::All => "All",
    }
}

/// A zero timestamp is "unset"; anything else is a set instant.
pub open spec fn opt_ts(t: u64) -> Option<u64> {
    if t > 0 {
        Some(t)
    } else {
        None
    }
}

fn opt_of(t: u64) -> (r: Option<u64>)
    ensures
        r == opt_ts(t),
{
    if t > 0 {
        Some(t)
    } else {
        None
    }
}

/// One rendered table row: the six cell texts for one filtered job.
pub struct TableRow {
    pub id: String,
    pub name: String,
    pub state: String,
    pub waiting: String,
    pub running: String,
    pub terminal: String,
}

/// How a rendered row relates to the job it shows at instant `now_ms`.
pub open spec fn row_matches(row: TableRow, j: JobView, now_ms: u64) -> bool {
    &&& row.id@ == spec_format_id(j.id)
    &&& row.name@ == j.name
    &&& row.state@ == j.state
    &&& row.waiting@ == spec_waiting_display(opt_ts(j.waiting_at), opt_ts(j.running_at), now_ms)
    &&& row.running@ == spec_running_display(
        opt_ts(j.running_at),
        opt_ts(j.terminated_at),
        now_ms,
    )
    &&& row.terminal@ == spec_terminal_display(opt_ts(j.terminated_at), now_ms)
}

/// The table body: one row per job of the (already filtered) list, in
/// order, with durations evaluated against the instant `now_ms`.
pub fn table_rows(jobs: &Vec<Job>, now_ms: u64) -> (r: Vec<TableRow>)
    ensures
        r@.len() == jobs@.len(),
        forall|i: int| 0 <= i < jobs@.len() ==> row_matches(#[trigger] r@[i], jobs@[i]@, now_ms),
{
    let mut r: Vec<TableRow> = Vec::new();
    let mut i: usize = 0;
    while i < jobs.len()
        invariant
            i <= jobs.len(),
            r@.len() == i,
            forall|k: int| 0 <= k < i ==> row_matches(#[trigger] r@[k], jobs@[k]@, now_ms),
        decreases jobs.len() - i,
    {
        let job = &jobs[i];
        let durations = compute_durations(
            opt_of(job.waiting_at),
            opt_of(job.running_at),
            opt_of(job.terminated_at),
            now_ms,
        );
        let row = TableRow {
            id: format_id(job.id.as_str()),
            name: job.name.clone(),
            state: job.state.clone(),
            waiting: durations.0,
            running: durations.1,
            terminal: durations.2,
        };
        r.push(row);
        i += 1;
    }
    r
}

/// One property pair as shown in the detail overlay.
pub open spec fn spec_property_line(p: PropertyView) -> Seq<char> {
    p.name + ": "@ + p.value
}

/// The detail overlay's property list: every pair as `"name: value"`, one
/// line each, in stored order.
pub fn property_lines(job: &Job) -> (r: Vec<String>)
    ensures
        r@.len() == job@.properties.len(),
        forall|i: int| 0 <= i < r@.len() ==> r@[i]@ == spec_property_line(
            #[trigger] job@.properties[i],
        ),
{
    let mut r: Vec<String> = Vec::new();
    let mut i: usize = 0;
    while i < job.properties.len()
        invariant
            i <= job.properties.len(),
            job@.properties.len() == job.properties@.len(),
            r@.len() == i,
            forall|k: int| 0 <= k < i ==> r@[k]@ == spec_property_line(
                #[trigger] job@.properties[k],
            ),
        decreases job.properties.len() - i,
    {
        let p = &job.properties[i];
        let mut line = String::from_str(p.name.as_str());
        line.append(": ");
        line.append(p.value.as_str());
        proof {
            assert(job@.properties[i as int] == job.properties@[i as int]@);
        }
        r.push(line);
        i += 1;
    }
    r
}

/// The labeled field lines of the detail overlay, in display order: the
/// identifier, name, and state, then the three durations suffixed `" s"`.
pub fn detail_field_lines(job: &Job, now_ms: u64) -> (r: Vec<String>)
    ensures
        r@.len() == 6,
        r@[0]@ == "ID: "@ + job@.id,
        r@[1]@ == "Name: "@ + job@.name,
        r@[2]@ == "State: "@ + job@.state,
        r@[3]@ == "Waiting: "@ + spec_waiting_display(
            opt_ts(job@.waiting_at),
            opt_ts(job@.running_at),
            now_ms,
        ) + " s"@,
        r@[4]@ == "Running: "@ + spec_running_display(
            opt_ts(job@.running_at),
            opt_ts(job@.terminated_at),
            now_ms,
        ) + " s"@,
        r@[5]@ == "Completed/Aborted: "@ + spec_terminal_display(
            opt_ts(job@.terminated_at),
            now_ms,
        ) + " s"@,
{
    let durations = compute_durations(
        opt_of(job.waiting_at),
        opt_of(job.running_at),
        opt_of(job.terminated_at),
        now_ms,
    );
    let mut line_id = String::from_str("ID: ");
    line_id.append(job.id.as_str());
    let mut line_name = String::from_str("Name: ");
    line_name.append(job.name.as_str());
    let mut line_state = String::from_str("State: ");
    line_state.append(job.state.as_str());
    let mut line_waiting = String::from_str("Waiting: ");
    line_waiting.append(durations.0.as_str());
    line_waiting.append(" s");
    let mut line_running = String::from_str("Running: ");
    line_running.append(durations.1.as_str());
    line_running.append(" s");
    let mut line_terminal = String::from_str("Completed/Aborted: ");
    line_terminal.append(durations.2.as_str());
    line_terminal.append(" s");
    let mut r: Vec<String> = Vec::new();
    r.push(line_id);
    r.push(line_name);
    r.push(line_state);
    r.push(line_waiting);
    r.push(line_running);
    r.push(line_terminal);
    r
}

/// A rectangle of the display surface, in terminal cells.
#[derive(Clone, Copy)]
pub struct Rect {
    pub x: u16,
    pub y: u16,
    pub width: u16,
    pub height: u16,
}

/// The centered overlay region: the given percentages of the surrounding
/// rectangle's width and height, placed so the left/top margin is half the
/// leftover space.
pub fn centered_rect(percent_x: u16, percent_y: u16, r: Rect) -> (res: Rect)
    requires
        percent_x <= 100,
        percent_y <= 100,
        r.x + r.width <= u16::MAX,
        r.y + r.height <= u16::MAX,
    ensures
        res.width == r.width * percent_x / 100,
        res.height == r.height * percent_y / 100,
        res.x == r.x + (r.width - res.width) / 2,
        res.y == r.y + (r.height - res.height) / 2,
        r.x <= res.x && res.x + res.width <= r.x + r.width,
        r.y <= res.y && res.y + res.height <= r.y + r.height,
{
    proof {
        assert(r.width as int * percent_x as int <= 65535 * 100) by (nonlinear_arith)
            requires
                percent_x <= 100,
                0 <= r.width as int <= 65535,
        ;
        assert(r.height as int * percent_y as int <= 65535 * 100) by (nonlinear_arith)
            requires
                percent_y <= 100,
                0 <= r.height as int <= 65535,
        ;
        assert(r.width as int * percent_x as int <= r.width as int * 100) by (nonlinear_arith)
            requires
                percent_x <= 100,
                r.width as int >= 0,
        ;
        assert(r.height as int * percent_y as int <= r.height as int * 100) by (nonlinear_arith)
            requires
                percent_y <= 100,
                r.height as int >= 0,
        ;
    }
    let w32: u32 = r.width as u32 * percent_x as u32 / 100;
    let h32: u32 = r.height as u32 * percent_y as u32 / 100;
    let w: u16 = w32 as u16;
    let h: u16 = h32 as u16;
    Rect { x: r.x + (r.width - w) / 2, y: r.y + (r.height - h) / 2, width: w, height: h }
}

} // verus!

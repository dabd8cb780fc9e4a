//! What the dashboard shows.
//!
//! The screen has three panes. The top of the screen is shared by the list
//! of connections, or the error that took its place, on the left and the
//! details of the selected connection's process on the right; the bottom is
//! kept for a log. This module says what stands in each pane, as text; how
//! the text is painted is not its matter.

pub mod stateful_list;

use vstd::prelude::*;
use vstd::string::*;
use crate::app::{App, AppView};
use crate::record::{ConnectionRecord, Endpoint, FetchError};
use crate::text::{decimal, hundredths, id_list, push_decimal, push_hundredths, push_id_list};
use crate::ui::stateful_list::index_view;
use crate::usage::ProcessUsage;

verus! {

/// The share of the screen's height that the top panes take, in percent.
pub const TOP_PERCENT: u16 = 80;

/// The share of the screen's height that the log pane takes, in percent.
pub const LOG_PERCENT: u16 = 20;

/// The share of the top's width that the list pane takes, in percent.
pub const LIST_PERCENT: u16 = 70;

/// The share of the top's width that the details pane takes, in percent.
pub const DETAILS_PERCENT: u16 = 30;

/// The title of the list pane.
pub const LIST_TITLE: &'static str = "Processes";

/// The title that the list pane has while it shows an error.
pub const ERROR_TITLE: &'static str = "Error";

/// The title of the details pane.
pub const DETAILS_TITLE: &'static str = "Details";

/// The title of the log pane.
pub const LOG_TITLE: &'static str = "Logs";

/// The mark in front of the selected row.
pub const HIGHLIGHT_SYMBOL: &'static str = ">> ";

/// The text of each line of `lines`.
pub open spec fn lines_view(lines: Seq<String>) -> Seq<Seq<char>> {
    Seq::new(lines.len(), |i: int| lines[i]@)
}

/// The mathematical content of a [`MainPane`].
pub enum MainPaneView {
    Connections { rows: Seq<Seq<char>>, selected: Option<nat> },
    Failure { message: Seq<char> },
}

/// The mathematical content of a [`Screen`].
pub struct ScreenView {
    pub main: MainPaneView,
    pub details: Seq<Seq<char>>,
    pub log: Seq<Seq<char>>,
}

/// What the list pane holds: one row for each connection and the index of
/// the selected row, or the message of the error that took their place.
#[derive(Debug, PartialEq, Eq)]
pub enum MainPane {
    Connections { rows: Vec<String>, selected: Option<usize> },
    Failure { message: String },
}

impl View for MainPane {
    type V = MainPaneView;

    open spec fn view(&self) -> MainPaneView {
        match self {
            MainPane::Connections { rows, selected } => MainPaneView::Connections {
                rows: lines_view(rows@),
                selected: index_view(*selected),
            },
            MainPane::Failure { message } => MainPaneView::Failure { message: message@ },
        }
    }
}

/// What the screen holds: the list pane, the lines of the details pane and
/// the lines of the log pane.
#[derive(Debug, PartialEq, Eq)]
pub struct Screen {
    pub main: MainPane,
    pub details: Vec<String>,
    pub log: Vec<String>,
}

impl View for Screen {
    type V = ScreenView;

    open spec fn view(&self) -> ScreenView {
        ScreenView {
            main: self.main@,
            details: lines_view(self.details@),
            log: lines_view(self.log@),
        }
    }
}

/// An end of a socket as text: the address, a colon, the port.
pub open spec fn endpoint_text(end: Endpoint) -> Seq<char> {
    end.address@ + ":"@ + decimal(end.port as nat)
}

/// The row of a connection. A TCP connection shows both ends, its owners
/// and its state; a UDP socket shows its local end and its owners, and
/// `*:*` in place of the end that it does not have.
pub open spec fn row_text(record: ConnectionRecord) -> Seq<char> {
    match record {
        ConnectionRecord::Tcp { local, remote, state, pids } => "TCP "@ + endpoint_text(local)
            + " -> "@ + endpoint_text(remote) + " "@ + id_list(pids@) + " "@ + state.label(),
        ConnectionRecord::Udp { local, pids } => "UDP "@ + endpoint_text(local) + " -> *:* "@
            + id_list(pids@),
    }
}

/// The rows of `records`, in their order.
pub open spec fn rows_text(records: Seq<ConnectionRecord>) -> Seq<Seq<char>> {
    Seq::new(records.len(), |i: int| row_text(records[i]))
}

/// The message that takes the place of the list after a refresh failed.
pub open spec fn failure_text(error: FetchError) -> Seq<char> {
    "Error fetching socket information: "@ + error.message@
}

/// What the list pane holds in a state.
pub open spec fn main_pane_of(state: AppView) -> MainPaneView {
    match state {
        Ok(list) => MainPaneView::Connections {
            rows: rows_text(list.items),
            selected: list.cursor,
        },
        Err(error) => MainPaneView::Failure { message: failure_text(error) },
    }
}

/// The process whose usage the details pane asks for: the first owner of
/// the selected connection. There is none while an error is shown, while
/// nothing is selected, and where the selected connection has no owner.
pub open spec fn wanted_pid(state: AppView) -> Option<u32> {
    match state {
        Ok(list) => match list.selected_item() {
            Some(record) => record.first_owner(),
            None => None,
        },
        Err(_) => None,
    }
}

/// The five lines that describe a process.
pub open spec fn usage_text(usage: ProcessUsage) -> Seq<Seq<char>> {
    seq![
        "PID: "@ + decimal(usage.pid as nat),
        "Name: "@ + usage.name@,
        "Status: "@ + usage.status.label(),
        "CPU: "@ + hundredths(usage.cpu_hundredths as nat) + "%"@,
        "Memory: "@ + decimal(usage.memory_kb as nat) + " KB"@,
    ]
}

/// What the details pane holds in a state, given what the lookup of the
/// wanted process brought. Where no process is wanted the pane says why,
/// and `usage` is not looked at.
pub open spec fn details_text(state: AppView, usage: Option<ProcessUsage>) -> Seq<Seq<char>> {
    match state {
        Err(_) => seq!["Error loading processes."@],
        Ok(list) => match list.selected_item() {
            None => seq!["No process selected."@],
            Some(record) => match record.first_owner() {
                None => seq!["No process associated with this socket."@],
                Some(_) => match usage {
                    None => seq!["Process not found."@],
                    Some(found) => usage_text(found),
                },
            },
        },
    }
}

/// What the screen holds in a state. Nothing is logged: the log pane is
/// empty in every state.
pub open spec fn screen_of(state: AppView, usage: Option<ProcessUsage>) -> ScreenView {
    ScreenView {
        main: main_pane_of(state),
        details: details_text(state, usage),
        log: Seq::empty(),
    }
}

/// Appends an end of a socket to `out`.
fn push_endpoint(out: &mut String, end: &Endpoint)
    ensures
        final(out)@ == old(out)@ + endpoint_text(*end),
{
    out.append(end.address.as_str());
    out.append(":");
    push_decimal(out, end.port as u64);
    assert(out@ =~= old(out)@ + endpoint_text(*end));
}

/// The row of a connection.
pub fn row(record: &ConnectionRecord) -> (text: String)
    ensures
        text@ == row_text(*record),
{
    let mut text = String::new();
    match record {
        ConnectionRecord::Tcp { local, remote, state, pids } => {
            text.append("TCP ");
            push_endpoint(&mut text, local);
            text.append(" -> ");
            push_endpoint(&mut text, remote);
            text.append(" ");
            push_id_list(&mut text, pids);
            text.append(" ");
            text.append(state.name());
        },
        ConnectionRecord::Udp { local, pids } => {
            text.append("UDP ");
            push_endpoint(&mut text, local);
            text.append(" -> *:* ");
            push_id_list(&mut text, pids);
        },
    }
    assert(text@ =~= row_text(*record));
    text
}

/// The rows of `records`, in their order.
pub fn rows(records: &Vec<ConnectionRecord>) -> (lines: Vec<String>)
    ensures
        lines_view(lines@) == rows_text(records@),
{
    let mut lines: Vec<String> = Vec::new();
    let mut i: usize = 0;
    while i < records.len()
        invariant
            i <= records.len(),
            lines@.len() == i,
            forall|j: int| 0 <= j < i ==> (#[trigger] lines@[j])@ == row_text(records@[j]),
        decreases records.len() - i,
    {
        lines.push(row(&records[i]));
        i += 1;
    }
    assert(lines_view(lines@) =~= rows_text(records@));
    lines
}

/// The message that takes the place of the list after a refresh failed.
pub fn failure_message(error: &FetchError) -> (text: String)
    ensures
        text@ == failure_text(*error),
{
    let mut text = String::new();
    text.append("Error fetching socket information: ");
    text.append(error.message.as_str());
    assert(text@ =~= failure_text(*error));
    text
}

/// The five lines that describe a process.
pub fn usage_lines(usage: &ProcessUsage) -> (lines: Vec<String>)
    ensures
        lines_view(lines@) == usage_text(*usage),
{
    let mut pid = String::new();
    pid.append("PID: ");
    push_decimal(&mut pid, usage.pid as u64);
    let mut name = String::new();
    name.append("Name: ");
    name.append(usage.name.as_str());
    let mut status = String::new();
    status.append("Status: ");
    usage.status.push_name(&mut status);
    let mut cpu = String::new();
    cpu.append("CPU: ");
    push_hundredths(&mut cpu, usage.cpu_hundredths);
    cpu.append("%");
    let mut memory = String::new();
    memory.append("Memory: ");
    push_decimal(&mut memory, usage.memory_kb);
    memory.append(" KB");
    let mut lines: Vec<String> = Vec::new();
    lines.push(pid);
    lines.push(name);
    lines.push(status);
    lines.push(cpu);
    lines.push(memory);
    proof {
        let expected = usage_text(*usage);
        assert(lines@[0]@ =~= expected[0]);
        assert(lines@[1]@ =~= expected[1]);
        assert(lines@[2]@ =~= expected[2]);
        assert(lines@[3]@ =~= expected[3]);
        assert(lines@[4]@ =~= expected[4]);
        assert(lines_view(lines@) =~= expected);
    }
    lines
}

/// One line that holds `text`.
fn single_line(text: &str) -> (lines: Vec<String>)
    ensures
        lines_view(lines@) == seq![text@],
{
    let mut lines: Vec<String> = Vec::new();
    lines.push(text.to_owned());
    assert(lines_view(lines@) =~= seq![text@]);
    lines
}

impl App {
    /// The process whose usage the details pane asks for, if there is one.
    pub fn details_pid(&self) -> (pid: Option<u32>)
        ensures
            pid == wanted_pid(self@),
    {
        match &self.processes {
            Ok(list) => match list.selected_item() {
                Some(record) => record.first_pid(),
                None => None,
            },
            Err(_) => None,
        }
    }
}

/// The lines of the details pane. `usage` is what the lookup of
/// [`App::details_pid`] brought: `None` where that process is gone.
pub fn details(app: &App, usage: &Option<ProcessUsage>) -> (lines: Vec<String>)
    ensures
        lines_view(lines@) == details_text(app@, *usage),
{
    match &app.processes {
        Err(_) => single_line("Error loading processes."),
        Ok(list) => match list.selected_item() {
            None => single_line("No process selected."),
            Some(record) => match record.first_pid() {
                None => single_line("No process associated with this socket."),
                Some(_) => match usage {
                    None => single_line("Process not found."),
                    Some(found) => usage_lines(found),
                },
            },
        },
    }
}

/// What the screen holds: the rows of the connections with the selected
/// index, or the error's message; the lines of the details pane; and an
/// empty log. `usage` is what the lookup of [`App::details_pid`] brought.
pub fn ui(app: &App, usage: &Option<ProcessUsage>) -> (screen: Screen)
    ensures
        screen@ == screen_of(app@, *usage),
{
    let main = match &app.processes {
        Ok(list) => MainPane::Connections { rows: rows(list.items()), selected: list.selected() },
        Err(error) => MainPane::Failure { message: failure_message(error) },
    };
    let log: Vec<String> = Vec::new();
    assert(lines_view(log@) =~= Seq::empty());
    Screen { main, details: details(app, usage), log }
}

} // verus!

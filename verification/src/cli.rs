//! The command-line client: its arguments, the request each command sends,
//! and what it prints of the server's answer.

use vstd::prelude::*;
use crate::api::{EntryResponse, ErrorResponse, StatusResponse, StopRequest, UpdateEntryRequest};
use crate::time::{
    clock, clock_minutes, clock_minutes_text, clock_text, duration_text, format_duration,
    whole_seconds_between, Timestamp,
};

verus! {

/// A command of the client.
#[derive(Debug)]
pub enum Command {
    Start,
    Stop { description: String },
    Status,
    Log,
    Delete { id: String },
    Edit { id: String, description: String },
}

/// Why the arguments name no command that can run.
#[derive(Debug)]
pub enum ArgError {
    /// No command at all.
    NoCommand,
    /// `stop` without a description.
    StopUsage,
    /// `delete` without an id.
    DeleteUsage,
    /// `edit` without an id, `--desc` and a description.
    EditUsage,
    /// A command that does not exist.
    Unknown(String),
}

pub enum CommandView {
    Start,
    Stop(Seq<char>),
    Status,
    Log,
    Delete(Seq<char>),
    Edit(Seq<char>, Seq<char>),
}

pub enum ArgErrorView {
    NoCommand,
    StopUsage,
    DeleteUsage,
    EditUsage,
    Unknown(Seq<char>),
}

impl View for Command {
    type V = CommandView;

    open spec fn view(&self) -> CommandView {
        match self {
            Command::Start => CommandView::Start,
            Command::Stop { description } => CommandView::Stop(description@),
            Command::Status => CommandView::Status,
            Command::Log => CommandView::Log,
            Command::Delete { id } => CommandView::Delete(id@),
            Command::Edit { id, description } => CommandView::Edit(id@, description@),
        }
    }
}

impl View for ArgError {
    type V = ArgErrorView;

    open spec fn view(&self) -> ArgErrorView {
        match self {
            ArgError::NoCommand => ArgErrorView::NoCommand,
            ArgError::StopUsage => ArgErrorView::StopUsage,
            ArgError::DeleteUsage => ArgErrorView::DeleteUsage,
            ArgError::EditUsage => ArgErrorView::EditUsage,
            ArgError::Unknown(c) => ArgErrorView::Unknown(c@),
        }
    }
}

/// The command that the program's arguments name (the first argument is the
/// program itself).
pub open spec fn command_of(args: Seq<Seq<char>>) -> Result<CommandView, ArgErrorView> {
    if args.len() < 2 {
        Err(ArgErrorView::NoCommand)
    } else if args[1] == "start"@ {
        Ok(CommandView::Start)
    } else if args[1] == "stop"@ {
        if args.len() < 3 { Err(ArgErrorView::StopUsage) } else { Ok(CommandView::Stop(args[2])) }
    } else if args[1] == "status"@ {
        Ok(CommandView::Status)
    } else if args[1] == "log"@ {
        Ok(CommandView::Log)
    } else if args[1] == "delete"@ {
        if args.len() < 3 { Err(ArgErrorView::DeleteUsage) } else { Ok(CommandView::Delete(args[2])) }
    } else if args[1] == "edit"@ {
        if args.len() < 5 || args[3] != "--desc"@ {
            Err(ArgErrorView::EditUsage)
        } else {
            Ok(CommandView::Edit(args[2], args[4]))
        }
    } else {
        Err(ArgErrorView::Unknown(args[1]))
    }
}

/// The words that name a command on the command line, after the program.
pub open spec fn command_line(c: CommandView) -> Seq<Seq<char>> {
    match c {
        CommandView::Start => seq!["start"@],
        CommandView::Stop(d) => seq!["stop"@, d],
        CommandView::Status => seq!["status"@],
        CommandView::Log => seq!["log"@],
        CommandView::Delete(id) => seq!["delete"@, id],
        CommandView::Edit(id, d) => seq!["edit"@, id, "--desc"@, d],
    }
}

/// Every command is read back from its command line, whatever the program
/// is called and whatever arguments follow.
pub proof fn law_command_line_read_back(program: Seq<char>, c: CommandView, extra: Seq<Seq<char>>)
    ensures
        command_of(seq![program] + command_line(c) + extra) == Ok::<CommandView, ArgErrorView>(c),
{
    reveal_strlit("start");
    reveal_strlit("stop");
    reveal_strlit("status");
    reveal_strlit("log");
    reveal_strlit("delete");
    reveal_strlit("edit");
    reveal_strlit("--desc");
    let args = seq![program] + command_line(c) + extra;
    assert(args[1] == command_line(c)[0]);
    assert("start"@.len() != "stop"@.len());
    assert("start"@.len() != "status"@.len());
    assert("start"@.len() != "log"@.len());
    assert("start"@.len() != "delete"@.len());
    assert("start"@.len() != "edit"@.len());
    assert("stop"@.len() != "status"@.len());
    assert("stop"@.len() != "log"@.len());
    assert("stop"@.len() != "delete"@.len());
    assert("stop"@[0] != "edit"@[0]);
    assert("status"@.len() != "log"@.len());
    assert("status"@[0] != "delete"@[0]);
    assert("status"@.len() != "edit"@.len());
    assert("log"@.len() != "delete"@.len());
    assert("log"@.len() != "edit"@.len());
    assert("delete"@.len() != "edit"@.len());
    match c {
        CommandView::Stop(d) => {
            assert(args[2] == d);
        },
        CommandView::Delete(id) => {
            assert(args[2] == id);
        },
        CommandView::Edit(id, d) => {
            assert(args[2] == id);
            assert(args[3] == "--desc"@);
            assert(args[4] == d);
        },
        _ => {},
    }
}

/// The arguments as texts.
pub open spec fn args_view(args: Seq<String>) -> Seq<Seq<char>> {
    args.map_values(|a: String| a@)
}

fn is_word(arg: &String, word: &str) -> (same: bool)
    ensures
        same == (arg@ == word@),
{
    *arg == String::from_str(word)
}

/// Reads the command from the program's arguments.
pub fn parse_args(args: &Vec<String>) -> (result: Result<Command, ArgError>)
    ensures
        match result {
            Ok(c) => command_of(args_view(args@)) == Ok::<CommandView, ArgErrorView>(c@),
            Err(e) => command_of(args_view(args@)) == Err::<CommandView, ArgErrorView>(e@),
        },
{
    let ghost a = args_view(args@);
    let n = args.len();
    if n < 2 {
        return Err(ArgError::NoCommand);
    }
    assert(a[1] == args@[1]@);
    let name = &args[1];
    if is_word(name, "start") {
        Ok(Command::Start)
    } else if is_word(name, "stop") {
        if n < 3 {
            Err(ArgError::StopUsage)
        } else {
            assert(a[2] == args@[2]@);
            Ok(Command::Stop { description: args[2].clone() })
        }
    } else if is_word(name, "status") {
        Ok(Command::Status)
    } else if is_word(name, "log") {
        Ok(Command::Log)
    } else if is_word(name, "delete") {
        if n < 3 {
            Err(ArgError::DeleteUsage)
        } else {
            assert(a[2] == args@[2]@);
            Ok(Command::Delete { id: args[2].clone() })
        }
    } else if is_word(name, "edit") {
        if n < 5 {
            Err(ArgError::EditUsage)
        } else {
            assert(a[2] == args@[2]@);
            assert(a[3] == args@[3]@);
            assert(a[4] == args@[4]@);
            if !is_word(&args[3], "--desc") {
                Err(ArgError::EditUsage)
            } else {
                Ok(Command::Edit { id: args[2].clone(), description: args[4].clone() })
            }
        }
    } else {
        Err(ArgError::Unknown(name.clone()))
    }
}

/// The usage text, one line at a time.
pub open spec fn usage_text() -> Seq<Seq<char>> {
    seq![
        "Usage:"@,
        "  epoch start                        Start a timer"@,
        "  epoch stop \"description\"            Stop timer with description"@,
        "  epoch status                       Show running timer"@,
        "  epoch log                          Show today's entries"@,
        "  epoch delete <id>                  Delete an entry"@,
        "  epoch edit <id> --desc \"text\"       Edit an entry's description"@,
    ]
}

/// The lines printed for each argument error.
pub open spec fn arg_error_text(e: ArgErrorView) -> Seq<Seq<char>> {
    match e {
        ArgErrorView::NoCommand => usage_text(),
        ArgErrorView::StopUsage => seq!["Usage: epoch stop \"description\""@],
        ArgErrorView::DeleteUsage => seq!["Usage: epoch delete <id>"@],
        ArgErrorView::EditUsage => seq!["Usage: epoch edit <id> --desc \"new description\""@],
        ArgErrorView::Unknown(c) => seq!["Unknown command: "@ + c] + usage_text(),
    }
}

/// The texts of a list of lines.
pub open spec fn lines_view(lines: Seq<String>) -> Seq<Seq<char>> {
    lines.map_values(|l: String| l@)
}

fn push_line(lines: &mut Vec<String>, line: &str)
    ensures
        lines_view(final(lines)@) == lines_view(old(lines)@).push(line@),
{
    lines.push(String::from_str(line));
    assert(lines_view(lines@) =~= lines_view(old(lines)@).push(line@));
}

fn push_usage(lines: &mut Vec<String>)
    ensures
        lines_view(final(lines)@) == lines_view(old(lines)@) + usage_text(),
{
    let ghost start = lines_view(lines@);
    push_line(lines, "Usage:");
    push_line(lines, "  epoch start                        Start a timer");
    push_line(lines, "  epoch stop \"description\"            Stop timer with description");
    push_line(lines, "  epoch status                       Show running timer");
    push_line(lines, "  epoch log                          Show today's entries");
    push_line(lines, "  epoch delete <id>                  Delete an entry");
    push_line(lines, "  epoch edit <id> --desc \"text\"       Edit an entry's description");
    assert(lines_view(lines@) =~= start + usage_text());
}

/// The usage text, printed when no command is given.
pub fn usage_lines() -> (lines: Vec<String>)
    ensures
        lines_view(lines@) == usage_text(),
{
    let mut lines: Vec<String> = Vec::new();
    push_usage(&mut lines);
    assert(lines_view(lines@) =~= usage_text());
    lines
}

/// What the client prints, to standard error, before it exits with status 1
/// on an argument error.
pub fn arg_error_lines(e: &ArgError) -> (lines: Vec<String>)
    ensures
        lines_view(lines@) == arg_error_text(e@),
{
    let mut lines: Vec<String> = Vec::new();
    match e {
        ArgError::NoCommand => push_usage(&mut lines),
        ArgError::StopUsage => push_line(&mut lines, "Usage: epoch stop \"description\""),
        ArgError::DeleteUsage => push_line(&mut lines, "Usage: epoch delete <id>"),
        ArgError::EditUsage => push_line(&mut lines, "Usage: epoch edit <id> --desc \"new description\""),
        ArgError::Unknown(c) => {
            let line = String::from_str("Unknown command: ").concat(c.as_str());
            lines.push(line);
            push_usage(&mut lines);
        },
    }
    assert(lines_view(lines@) =~= arg_error_text(e@));
    lines
}

/// The HTTP methods the client uses.
#[derive(Debug, Clone, Copy, PartialEq, Eq, Structural)]
pub enum Method {
    Get,
    Post,
    Put,
    Delete,
}

/// The JSON body a request carries, if any.
#[derive(Debug)]
pub enum RequestBody {
    Nothing,
    Stop(StopRequest),
    Update(UpdateEntryRequest),
}

/// A request to the server: method, path below the server's URL, and body.
#[derive(Debug)]
pub struct ApiRequest {
    pub method: Method,
    pub path: String,
    pub body: RequestBody,
}

pub enum RequestBodyView {
    Nothing,
    Stop(Seq<char>),
    Update(Option<Seq<char>>),
}

impl View for ApiRequest {
    type V = (Method, Seq<char>, RequestBodyView);

    open spec fn view(&self) -> (Method, Seq<char>, RequestBodyView) {
        (self.method, self.path@, match self.body {
            RequestBody::Nothing => RequestBodyView::Nothing,
            RequestBody::Stop(b) => RequestBodyView::Stop(b.description@),
            RequestBody::Update(b) => RequestBodyView::Update(b.description.deep_view()),
        })
    }
}

/// The request that each command sends.
pub open spec fn request_of(c: CommandView) -> (Method, Seq<char>, RequestBodyView) {
    match c {
        CommandView::Start => (Method::Post, "/api/timer/start"@, RequestBodyView::Nothing),
        CommandView::Stop(d) => (Method::Post, "/api/timer/stop"@, RequestBodyView::Stop(d)),
        CommandView::Status => (Method::Get, "/api/timer/status"@, RequestBodyView::Nothing),
        CommandView::Log => (Method::Get, "/api/entries"@, RequestBodyView::Nothing),
        CommandView::Delete(id) => (Method::Delete, "/api/entries/"@ + id, RequestBodyView::Nothing),
        CommandView::Edit(id, d) => (Method::Put, "/api/entries/"@ + id, RequestBodyView::Update(Some(d))),
    }
}

/// The request that `command` sends.
pub fn request_for(command: &Command) -> (request: ApiRequest)
    ensures
        request@ == request_of(command@),
{
    match command {
        Command::Start => ApiRequest {
            method: Method::Post,
            path: String::from_str("/api/timer/start"),
            body: RequestBody::Nothing,
        },
        Command::Stop { description } => ApiRequest {
            method: Method::Post,
            path: String::from_str("/api/timer/stop"),
            body: RequestBody::Stop(StopRequest { description: description.clone() }),
        },
        Command::Status => ApiRequest {
            method: Method::Get,
            path: String::from_str("/api/timer/status"),
            body: RequestBody::Nothing,
        },
        Command::Log => ApiRequest {
            method: Method::Get,
            path: String::from_str("/api/entries"),
            body: RequestBody::Nothing,
        },
        Command::Delete { id } => ApiRequest {
            method: Method::Delete,
            path: String::from_str("/api/entries/").concat(id.as_str()),
            body: RequestBody::Nothing,
        },
        Command::Edit { id, description } => ApiRequest {
            method: Method::Put,
            path: String::from_str("/api/entries/").concat(id.as_str()),
            body: RequestBody::Update(UpdateEntryRequest { description: Some(description.clone()) }),
        },
    }
}

/// The URL of `path` on the server at `server_url`.
pub fn endpoint_url(server_url: &str, path: &str) -> (url: String)
    ensures
        url@ == server_url@ + path@,
{
    String::from_str(server_url).concat(path)
}

/// What the client does with the status code of an answer before it reads
/// the body.
#[derive(Debug)]
pub enum ReplyCheck {
    /// Print this line to standard error and exit with status 1.
    Refused(String),
    /// Read the body as an error, print `error_message` of it to standard
    /// error and exit with status 1.
    Failed,
    /// Read the body the command expects.
    Accepted,
}

/// A status code in the 2xx range.
pub open spec fn is_success(status: u16) -> bool {
    200 <= status < 300
}

/// The status code that a command answers with its own message, and the message.
pub open spec fn refusal(c: CommandView, status: u16) -> Option<Seq<char>> {
    match c {
        CommandView::Start => if status == 409 {
            Some("A timer is already running. Stop it first with: epoch stop \"description\""@)
        } else {
            None
        },
        CommandView::Stop(_) => if status == 404 { Some("No running timer to stop."@) } else { None },
        CommandView::Delete(_) => if status == 404 { Some("Entry not found."@) } else { None },
        CommandView::Edit(_, _) => if status == 404 { Some("Entry not found."@) } else { None },
        _ => None,
    }
}

/// Whether a command looks at the status code at all (`status` and `log` read
/// the body whatever it is).
pub open spec fn checks_status(c: CommandView) -> bool {
    !(c is Status || c is Log)
}

/// The client never reports success on an error status: for every command
/// but `status` and `log`, a status code outside 2xx is either the command's
/// own refusal or an error whose body the client prints, and a refusal
/// comes only with such a code. `start` is refused on 409, `stop`, `delete`
/// and `edit` on 404.
pub proof fn law_error_status_never_accepted(c: CommandView, status: u16)
    ensures
        !(c is Status || c is Log) && !(200 <= status < 300) ==> refusal(c, status) is Some || checks_status(c),
        refusal(c, status) is Some ==> !(200 <= status < 300),
        refusal(c, status) is Some <==> (c is Start && status == 409
            || (c is Stop || c is Delete || c is Edit) && status == 404),
        c is Status || c is Log ==> refusal(c, status) is None && !checks_status(c),
{
}

/// What `command` does with an answer's status code.
pub fn reply_check(command: &Command, status: u16) -> (check: ReplyCheck)
    ensures
        refusal(command@, status) matches Some(m) ==> (check is Refused && check->Refused_0@ == m),
        refusal(command@, status) is None && checks_status(command@) && !is_success(status)
            ==> check is Failed,
        refusal(command@, status) is None && (!checks_status(command@) || is_success(status))
            ==> check is Accepted,
        check is Accepted ==> (200 <= status < 300 || command is Status || command is Log),
{
    let success = 200 <= status && status < 300;
    match command {
        Command::Start => {
            if status == 409 {
                return ReplyCheck::Refused(String::from_str(
                    "A timer is already running. Stop it first with: epoch stop \"description\"",
                ));
            }
        },
        Command::Stop { .. } => {
            if status == 404 {
                return ReplyCheck::Refused(String::from_str("No running timer to stop."));
            }
        },
        Command::Delete { .. } | Command::Edit { .. } => {
            if status == 404 {
                return ReplyCheck::Refused(String::from_str("Entry not found."));
            }
        },
        Command::Status | Command::Log => {
            return ReplyCheck::Accepted;
        },
    }
    if success { ReplyCheck::Accepted } else { ReplyCheck::Failed }
}

/// The line printed for an error answer.
pub fn error_message(err: &ErrorResponse) -> (line: String)
    ensures
        line@ == "Error: "@ + err.error@,
{
    String::from_str("Error: ").concat(err.error.as_str())
}

/// The line printed when a timer has started.
pub fn started_message(entry: &EntryResponse) -> (line: String)
    ensures
        line@ == "Timer started at "@ + clock_text(entry.started_at),
{
    let time = clock(&entry.started_at);
    String::from_str("Timer started at ").concat(time.as_str())
}

/// The line printed when the timer has stopped, with the description given
/// on the command line.
pub fn stopped_message(description: &str, entry: &EntryResponse) -> (line: String)
    requires
        entry.stopped_at is Some,
    ensures
        line@ == "Stopped: "@ + description@ + " ("@
            + duration_text(whole_seconds_between(entry.started_at, entry.stopped_at->Some_0))
            + ")"@,
{
    let stopped_at = match &entry.stopped_at {
        Some(t) => t,
        None => return String::new(),
    };
    let duration = format_duration(&entry.started_at, stopped_at);
    String::from_str("Stopped: ").concat(description).concat(" (").concat(duration.as_str()).concat(")")
}

/// What `status` prints, given the time now.
pub open spec fn status_text(running: bool, entry: Option<EntryResponse>, now: Timestamp) -> Seq<char> {
    if !running {
        "No timer running."@
    } else {
        "Running for "@ + duration_text(whole_seconds_between(entry->Some_0.started_at, now))
            + " (started at "@ + clock_text(entry->Some_0.started_at) + ")"@
    }
}

/// The line printed by `status`, given the time now.
pub fn status_message(status: &StatusResponse, now: &Timestamp) -> (line: String)
    requires
        status.running ==> status.entry is Some,
    ensures
        line@ == status_text(status.running, status.entry, *now),
        !status.running ==> line@ == "No timer running."@,
        status.running ==> line@ == "Running for "@
            + duration_text(whole_seconds_between(status.entry->Some_0.started_at, *now))
            + " (started at "@ + clock_text(status.entry->Some_0.started_at) + ")"@,
{
    if !status.running {
        return String::from_str("No timer running.");
    }
    let entry = match &status.entry {
        Some(e) => e,
        None => return String::new(),
    };
    let duration = format_duration(&entry.started_at, now);
    let time = clock(&entry.started_at);
    String::from_str("Running for ").concat(duration.as_str()).concat(" (started at ").concat(
        time.as_str(),
    ).concat(")")
}

/// The line `log` prints for one entry, given the time now: start and stop
/// times with the duration, or the time so far for a running entry, then
/// the description.
pub open spec fn log_line_text(e: EntryResponse, now: Timestamp) -> Seq<char> {
    let time = match e.stopped_at {
        Some(end) => clock_minutes_text(e.started_at) + " - "@ + clock_minutes_text(end) + "  "@
            + duration_text(whole_seconds_between(e.started_at, end)),
        None => clock_minutes_text(e.started_at) + " - ...    "@
            + duration_text(whole_seconds_between(e.started_at, now)),
    };
    let desc = match e.description {
        Some(d) => d@,
        None => "(running)"@,
    };
    "  "@ + time + "  "@ + desc
}

/// What `log` prints.
pub open spec fn log_text(entries: Seq<EntryResponse>, now: Timestamp) -> Seq<Seq<char>> {
    if entries.len() == 0 {
        seq!["No entries today."@]
    } else {
        entries.map_values(|e: EntryResponse| log_line_text(e, now))
    }
}

/// What `log` prints: "No entries today." when there are no entries,
/// otherwise one line per entry.
pub proof fn law_log_lines(entries: Seq<EntryResponse>, now: Timestamp)
    ensures
        entries.len() == 0 ==> log_text(entries, now) == seq!["No entries today."@],
        entries.len() > 0 ==> log_text(entries, now).len() == entries.len(),
{
}

/// Line `i` of `log` depends only on entry `i` and the time now: it is the
/// line that entry gets when it is the only one. A stopped entry's line
/// shows its start and stop times and the time between them; a running
/// entry's line shows its start time, `...` and the time from its start to
/// now; each line ends with the entry's description, or `(running)` when it
/// has none.
pub proof fn law_log_line_of_entry(entries: Seq<EntryResponse>, now: Timestamp, i: int)
    requires
        0 <= i < entries.len(),
    ensures
        log_text(entries, now)[i] == log_text(seq![entries[i]], now)[0],
        entries[i].stopped_at is Some ==> log_text(entries, now)[i] == "  "@
            + clock_minutes_text(entries[i].started_at) + " - "@
            + clock_minutes_text(entries[i].stopped_at->Some_0) + "  "@
            + duration_text(whole_seconds_between(entries[i].started_at, entries[i].stopped_at->Some_0))
            + "  "@ + match entries[i].description { Some(d) => d@, None => "(running)"@ },
        entries[i].stopped_at is None ==> log_text(entries, now)[i] == "  "@
            + clock_minutes_text(entries[i].started_at) + " - ...    "@
            + duration_text(whole_seconds_between(entries[i].started_at, now))
            + "  "@ + match entries[i].description { Some(d) => d@, None => "(running)"@ },
{
    let one = seq![entries[i]];
    assert(one.len() == 1 && one[0] == entries[i]);
}

fn log_line(e: &EntryResponse, now: &Timestamp) -> (line: String)
    ensures
        line@ == log_line_text(*e, *now),
{
    let start = clock_minutes(&e.started_at);
    let time = match &e.stopped_at {
        Some(end) => {
            let end_text = clock_minutes(end);
            let duration = format_duration(&e.started_at, end);
            start.concat(" - ").concat(end_text.as_str()).concat("  ").concat(duration.as_str())
        },
        None => {
            let duration = format_duration(&e.started_at, now);
            start.concat(" - ...    ").concat(duration.as_str())
        },
    };
    let desc: &str = match &e.description {
        Some(d) => d.as_str(),
        None => "(running)",
    };
    String::from_str("  ").concat(time.as_str()).concat("  ").concat(desc)
}

/// The lines printed by `log`, given the time now.
pub fn log_lines(entries: &Vec<EntryResponse>, now: &Timestamp) -> (lines: Vec<String>)
    ensures
        lines_view(lines@) == log_text(entries@, *now),
{
    let mut lines: Vec<String> = Vec::new();
    if entries.len() == 0 {
        push_line(&mut lines, "No entries today.");
        assert(lines_view(lines@) =~= log_text(entries@, *now));
        return lines;
    }
    let mut i: usize = 0;
    while i < entries.len()
        invariant
            i <= entries.len(),
            lines@.len() == i,
            forall|j: int| 0 <= j < i ==> #[trigger] lines@[j]@ == log_line_text(entries@[j], *now),
        decreases entries.len() - i,
    {
        lines.push(log_line(&entries[i], now));
        i = i + 1;
    }
    assert(lines_view(lines@) =~= log_text(entries@, *now));
    lines
}

/// The line printed when a `delete` or an `edit` has succeeded; the other
/// commands print what their answer holds instead.
pub open spec fn done_text(c: CommandView) -> Option<Seq<char>> {
    match c {
        CommandView::Delete(_) => Some("Entry deleted."@),
        CommandView::Edit(_, _) => Some("Entry updated."@),
        _ => None,
    }
}

/// The line printed when a `delete` or an `edit` has succeeded.
pub fn done_message(command: &Command) -> (line: Option<String>)
    ensures
        match line {
            Some(l) => done_text(command@) == Some(l@),
            None => done_text(command@) is None,
        },
{
    match command {
        Command::Delete { .. } => Some(String::from_str("Entry deleted.")),
        Command::Edit { .. } => Some(String::from_str("Entry updated.")),
        _ => None,
    }
}

/// Where the client's configuration lives, below the home directory.
pub fn config_path(home: &str) -> (path: String)
    ensures
        path@ == home@ + "/.epoch/config.toml"@,
{
    String::from_str(home).concat("/.epoch/config.toml")
}

/// What the client prints, to standard error, when it finds no configuration
/// at `path`, before it exits with status 1.
pub open spec fn missing_config_text(path: Seq<char>) -> Seq<Seq<char>> {
    seq![
        "Config not found at "@ + path,
        "Create it with:"@,
        ""@,
        "  mkdir -p ~/.epoch"@,
        "  cat > ~/.epoch/config.toml << 'EOF'"@,
        "  server_url = \"http://localhost:3000\""@,
        "  api_key = \"your-secret-key\""@,
        "  EOF"@,
    ]
}

/// The lines printed when no configuration is found at `path`.
pub fn missing_config_lines(path: &str) -> (lines: Vec<String>)
    ensures
        lines_view(lines@) == missing_config_text(path@),
{
    let mut lines: Vec<String> = Vec::new();
    lines.push(String::from_str("Config not found at ").concat(path));
    push_line(&mut lines, "Create it with:");
    push_line(&mut lines, "");
    push_line(&mut lines, "  mkdir -p ~/.epoch");
    push_line(&mut lines, "  cat > ~/.epoch/config.toml << 'EOF'");
    push_line(&mut lines, "  server_url = \"http://localhost:3000\"");
    push_line(&mut lines, "  api_key = \"your-secret-key\"");
    push_line(&mut lines, "  EOF");
    assert(lines_view(lines@) =~= missing_config_text(path@));
    lines
}

} // verus!

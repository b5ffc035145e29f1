//! The command line: flags, their values, and the proxy that they configure.

use crate::events::{ProxyEvent, ProxyEventView, ProxyView};
use crate::logger::{log_level_named, stamp_of, LogLevel, LoggerView, Moment};
use crate::proxy::{Proxy, ProxyState};
use crate::text::{lowercase, str_equals, to_lowercase};
use crate::traffic_filter::{clone_strings, TrafficFilter, TrafficFilterType, TrafficFilterView};
use vstd::prelude::*;
use vstd::string::StringExecFns;

verus! {

/// What an argument is: one of the flags, or a value.
#[derive(Debug, Clone, Copy, PartialEq, Eq, Structural)]
pub enum Flag {
    CommandLine,
    Port,
    LogLevel,
    TrafficFilter,
    TrafficFilterType,
    TrafficFilterList,
    Help,
    Value,
}

/// The flag that an argument spells, in its long or its short form; `Value` for any
/// other text.
pub open spec fn flag_of(argument: Seq<char>) -> Flag {
    if argument == "--no-ui"@ {
        Flag::CommandLine
    } else if argument == "--port"@ || argument == "-p"@ {
        Flag::Port
    } else if argument == "--log-level"@ || argument == "-l"@ {
        Flag::LogLevel
    } else if argument == "--filter"@ || argument == "-f"@ {
        Flag::TrafficFilter
    } else if argument == "--filter-type"@ || argument == "-ft"@ {
        Flag::TrafficFilterType
    } else if argument == "--filter-list"@ || argument == "-fl"@ {
        Flag::TrafficFilterList
    } else if argument == "--help"@ || argument == "-h"@ {
        Flag::Help
    } else {
        Flag::Value
    }
}

impl Flag {
    /// The flag that `value` spells; `Value` where it spells none.
    pub fn from(value: &String) -> (flag: Flag)
        ensures
            flag == flag_of(value@),
    {
        let text = value.as_str();
        if str_equals(text, "--no-ui") {
            Flag::CommandLine
        } else if str_equals(text, "--port") || str_equals(text, "-p") {
            Flag::Port
        } else if str_equals(text, "--log-level") || str_equals(text, "-l") {
            Flag::LogLevel
        } else if str_equals(text, "--filter") || str_equals(text, "-f") {
            Flag::TrafficFilter
        } else if str_equals(text, "--filter-type") || str_equals(text, "-ft") {
            Flag::TrafficFilterType
        } else if str_equals(text, "--filter-list") || str_equals(text, "-fl") {
            Flag::TrafficFilterList
        } else if str_equals(text, "--help") || str_equals(text, "-h") {
            Flag::Help
        } else {
            Flag::Value
        }
    }

    /// Whether the flag takes the argument after it as its value.
    pub open spec fn takes_value(self) -> bool {
        self is Port || self is LogLevel || self is TrafficFilterType || self is TrafficFilterList
    }

    /// Whether the flag takes the argument after it as its value.
    pub fn requires_value(&self) -> (needed: bool)
        ensures
            needed == self.takes_value(),
    {
        match self {
            Flag::Port | Flag::LogLevel | Flag::TrafficFilterType | Flag::TrafficFilterList => true,
            _ => false,
        }
    }

    /// The flag's name as it stands in messages.
    pub open spec fn name(self) -> Seq<char> {
        match self {
            Flag::CommandLine => "CommandLine"@,
            Flag::Port => "Port"@,
            Flag::LogLevel => "LogLevel"@,
            Flag::TrafficFilter => "TrafficFilter"@,
            Flag::TrafficFilterType => "TrafficFilterType"@,
            Flag::TrafficFilterList => "TrafficFilterList"@,
            Flag::Help => "Help"@,
            Flag::Value => "Value"@,
        }
    }

    /// The flag's name as it stands in messages.
    pub fn to_string(&self) -> (name: String)
        ensures
            name@ == self.name(),
    {
        match self {
            Flag::CommandLine => "CommandLine".to_owned(),
            Flag::Port => "Port".to_owned(),
            Flag::LogLevel => "LogLevel".to_owned(),
            Flag::TrafficFilter => "TrafficFilter".to_owned(),
            Flag::TrafficFilterType => "TrafficFilterType".to_owned(),
            Flag::TrafficFilterList => "TrafficFilterList".to_owned(),
            Flag::Help => "Help".to_owned(),
            Flag::Value => "Value".to_owned(),
        }
    }
}

/// The mode that a lower-case name stands for, if it stands for one.
pub open spec fn filter_type_named(lowered: Seq<char>) -> Option<TrafficFilterType> {
    if lowered == "allow"@ {
        Some(TrafficFilterType::Allow)
    } else if lowered == "deny"@ {
        Some(TrafficFilterType::Deny)
    } else {
        None
    }
}

/// The mode that a lower-case name stands for: `allow` or `deny`.
pub fn filter_type_from_name(lowered: &str) -> (mode: Option<TrafficFilterType>)
    ensures
        mode == filter_type_named(lowered@),
{
    if str_equals(lowered, "allow") {
        Some(TrafficFilterType::Allow)
    } else if str_equals(lowered, "deny") {
        Some(TrafficFilterType::Deny)
    } else {
        None
    }
}

/// The complaint about a value that no flag precedes.
pub open spec fn stray_value_message() -> Seq<char> {
    "Value: "@ + Flag::Value.name() + ", has been provided without the appropriate flag..."@
}

/// The complaint about a flag whose value is missing.
pub open spec fn missing_value_message(flag: Flag) -> Seq<char> {
    "Flag: "@ + flag.name() + ", has been provided without the appropriate value..."@
}

/// The complaint about a mode that is neither `allow` nor `deny`.
pub open spec fn unknown_mode_message(value: Seq<char>) -> Seq<char> {
    "Value: "@ + value + " is not one of ['ALLOW', 'DENY']."@
}

/// The complaint about a list that could not be read.
pub open spec fn import_failure_message(reason: Seq<char>) -> Seq<char> {
    "CSV could not be imported - "@ + reason
}

/// What is to be done once the arguments have been read as far as they can be
/// without outside help.
#[derive(Debug)]
pub enum CliStep {
    /// All arguments are read.
    Finished,
    /// Help was asked for: print the usage and leave.
    Usage,
    /// Read the list at `path` and import it, then go on at argument `resume`.
    ImportList { path: String, resume: usize },
}

/// The mathematical content of a [`CliStep`].
pub ghost enum CliStepView {
    Finished,
    Usage,
    ImportList { path: Seq<char>, resume: int },
}

impl View for CliStep {
    type V = CliStepView;

    open spec fn view(&self) -> CliStepView {
        match self {
            CliStep::Finished => CliStepView::Finished,
            CliStep::Usage => CliStepView::Usage,
            CliStep::ImportList { path, resume } => CliStepView::ImportList {
                path: path@,
                resume: *resume as int,
            },
        }
    }
}

/// The outcome of reading arguments, by its content.
pub open spec fn outcome_of(outcome: Result<CliStep, String>) -> Result<CliStepView, Seq<char>> {
    match outcome {
        Ok(step) => Ok(step@),
        Err(message) => Err(message@),
    }
}

/// The mathematical content of a [`CommandLineAdapter`].
pub ghost struct CommandLineView {
    pub command_line: bool,
    pub port: Seq<char>,
    pub log_level: LogLevel,
    pub traffic_filter: bool,
    pub traffic_filter_type: TrafficFilterType,
    pub traffic_filter_list: Seq<Seq<char>>,
}

impl CommandLineView {
    /// The settings before any argument is read.
    pub open spec fn initial() -> CommandLineView {
        CommandLineView {
            command_line: false,
            port: "8080"@,
            log_level: LogLevel::Info,
            traffic_filter: false,
            traffic_filter_type: TrafficFilterType::Allow,
            traffic_filter_list: Seq::empty(),
        }
    }

    /// The filter that the settings describe: the list is the active list of the
    /// chosen mode, the other list is empty.
    pub open spec fn filter(self) -> TrafficFilterView {
        (TrafficFilterView {
            enabled: self.traffic_filter,
            mode: self.traffic_filter_type,
            allow_exclusions: Seq::empty(),
            deny_exclusions: Seq::empty(),
        }).with_active_list(self.traffic_filter_list)
    }

    /// Reads the arguments from index `at` on. Each flag is applied in turn; a flag
    /// that takes a value consumes the argument after it. Reading ends at the first
    /// complaint, at a call for help, at a list to import, or with the arguments.
    pub open spec fn read(self, arguments: Seq<Seq<char>>, at: int) -> (
        CommandLineView,
        Result<CliStepView, Seq<char>>,
    )
        decreases arguments.len() - at,
    {
        if at < 0 || at >= arguments.len() {
            (self, Ok(CliStepView::Finished))
        } else {
            let flag = flag_of(arguments[at]);
            if flag is Value {
                (self, Err(stray_value_message()))
            } else if flag.takes_value() && at + 1 >= arguments.len() {
                (self, Err(missing_value_message(flag)))
            } else {
                match flag {
                    Flag::CommandLine => (CommandLineView { command_line: true, ..self }).read(
                        arguments,
                        at + 1,
                    ),
                    Flag::Port => (CommandLineView { port: arguments[at + 1], ..self }).read(
                        arguments,
                        at + 2,
                    ),
                    Flag::LogLevel => (CommandLineView {
                        log_level: log_level_named(lowercase(arguments[at + 1])),
                        ..self
                    }).read(arguments, at + 2),
                    Flag::TrafficFilter => (CommandLineView { traffic_filter: true, ..self }).read(
                        arguments,
                        at + 1,
                    ),
                    Flag::TrafficFilterType => match filter_type_named(
                        lowercase(arguments[at + 1]),
                    ) {
                        Some(mode) => (CommandLineView {
                            traffic_filter: true,
                            traffic_filter_type: mode,
                            ..self
                        }).read(arguments, at + 2),
                        None => (
                            CommandLineView { traffic_filter: true, ..self },
                            Err(unknown_mode_message(arguments[at + 1])),
                        ),
                    },
                    Flag::TrafficFilterList => (
                        CommandLineView { traffic_filter: true, ..self },
                        Ok(CliStepView::ImportList { path: arguments[at + 1], resume: at + 2 }),
                    ),
                    _ => (self, Ok(CliStepView::Usage)),
                }
            }
        }
    }

    /// The settings after an attempt to import a list, and the complaint if it failed.
    pub open spec fn imported(self, rows: Result<Seq<Seq<char>>, Seq<char>>) -> (
        CommandLineView,
        Result<(), Seq<char>>,
    ) {
        match rows {
            Ok(list) => (CommandLineView { traffic_filter_list: list, ..self }, Ok(())),
            Err(reason) => (self, Err(import_failure_message(reason))),
        }
    }
}

/// The settings that the command line gives.
#[derive(Debug)]
pub struct CommandLineAdapter {
    command_line: bool,
    port: String,
    log_level: LogLevel,
    traffic_filter: bool,
    traffic_filter_type: TrafficFilterType,
    traffic_filter_list: Vec<String>,
}

impl View for CommandLineAdapter {
    type V = CommandLineView;

    closed spec fn view(&self) -> CommandLineView {
        CommandLineView {
            command_line: self.command_line,
            port: self.port@,
            log_level: self.log_level,
            traffic_filter: self.traffic_filter,
            traffic_filter_type: self.traffic_filter_type,
            traffic_filter_list: self.traffic_filter_list.deep_view(),
        }
    }
}

impl Default for CommandLineAdapter {
    fn default() -> (adapter: Self)
        ensures
            adapter@ == CommandLineView::initial(),
    {
        let adapter = CommandLineAdapter {
            command_line: false,
            port: "8080".to_owned(),
            log_level: LogLevel::Info,
            traffic_filter: false,
            traffic_filter_type: TrafficFilterType::Allow,
            traffic_filter_list: Vec::new(),
        };
        assert(adapter.traffic_filter_list.deep_view() =~= Seq::<Seq<char>>::empty());
        adapter
    }
}

/// The content of an import's rows.
pub open spec fn rows_of(rows: Result<Vec<String>, String>) -> Result<Seq<Seq<char>>, Seq<char>> {
    match rows {
        Ok(list) => Ok(list.deep_view()),
        Err(reason) => Err(reason@),
    }
}

/// The content of an import's verdict.
pub open spec fn verdict_of(verdict: Result<(), String>) -> Result<(), Seq<char>> {
    match verdict {
        Ok(()) => Ok(()),
        Err(message) => Err(message@),
    }
}

impl CommandLineAdapter {
    /// Whether the interface was switched off on the command line.
    pub fn cmd_only(&self) -> (only: bool)
        ensures
            only == self@.command_line,
    {
        self.command_line
    }

    /// Reads the arguments, the program's own path left out, from the first on.
    pub fn map_arg_to_flag(&mut self, arguments: &Vec<String>) -> (outcome: Result<
        CliStep,
        String,
    >)
        ensures
            (final(self)@, outcome_of(outcome)) == old(self)@.read(arguments.deep_view(), 0),
    {
        self.map_arg_to_flag_from(arguments, 0)
    }

    /// Reads the arguments from index `start` on.
    pub fn map_arg_to_flag_from(&mut self, arguments: &Vec<String>, start: usize) -> (outcome:
        Result<CliStep, String>)
        ensures
            (final(self)@, outcome_of(outcome)) == old(self)@.read(
                arguments.deep_view(),
                start as int,
            ),
    {
        let ghost texts = arguments.deep_view();
        let mut index: usize = start;
        while index < arguments.len()
            invariant
                texts == arguments.deep_view(),
                self@.read(texts, index as int) == old(self)@.read(texts, start as int),
            decreases arguments.len() - index,
        {
            let argument = &arguments[index];
            assert(texts[index as int] == argument@);
            let current_flag = Flag::from(argument);
            if let Flag::Value = current_flag {
                let message = "Value: ".to_owned().concat(current_flag.to_string().as_str()).concat(
                    ", has been provided without the appropriate flag...",
                );
                return Err(message);
            }
            let has_value = index + 1 < arguments.len();
            if current_flag.requires_value() && !has_value {
                let message = "Flag: ".to_owned().concat(current_flag.to_string().as_str()).concat(
                    ", has been provided without the appropriate value...",
                );
                return Err(message);
            }
            match current_flag {
                Flag::CommandLine => {
                    self.command_line = true;
                    index += 1;
                },
                Flag::Port => {
                    assert(texts[index + 1] == arguments@[index + 1]@);
                    self.port = arguments[index + 1].clone();
                    index += 2;
                },
                Flag::LogLevel => {
                    assert(texts[index + 1] == arguments@[index + 1]@);
                    self.log_level = LogLevel::from(&arguments[index + 1]);
                    index += 2;
                },
                Flag::TrafficFilter => {
                    self.traffic_filter = true;
                    index += 1;
                },
                Flag::TrafficFilterType => {
                    self.traffic_filter = true;
                    let value = &arguments[index + 1];
                    assert(texts[index + 1] == value@);
                    let lowered = to_lowercase(value.as_str());
                    match filter_type_from_name(lowered.as_str()) {
                        Some(mode) => {
                            self.traffic_filter_type = mode;
                        },
                        None => {
                            let message = "Value: ".to_owned().concat(value.as_str()).concat(
                                " is not one of ['ALLOW', 'DENY'].",
                            );
                            return Err(message);
                        },
                    }
                    index += 2;
                },
                Flag::TrafficFilterList => {
                    self.traffic_filter = true;
                    assert(texts[index + 1] == arguments@[index + 1]@);
                    return Ok(
                        CliStep::ImportList {
                            path: arguments[index + 1].clone(),
                            resume: index + 2,
                        },
                    );
                },
                _ => {
                    return Ok(CliStep::Usage);
                },
            }
        }
        Ok(CliStep::Finished)
    }

    /// Takes the rows of an imported list as the filter list, or turns the reason of
    /// a failed import into the complaint.
    pub fn import_filter_list(&mut self, rows: Result<Vec<String>, String>) -> (verdict: Result<
        (),
        String,
    >)
        ensures
            (final(self)@, verdict_of(verdict)) == old(self)@.imported(rows_of(rows)),
    {
        match rows {
            Ok(list) => {
                self.traffic_filter_list = list;
                Ok(())
            },
            Err(reason) => Err("CSV could not be imported - ".to_owned().concat(reason.as_str())),
        }
    }

    /// The proxy that the settings describe, with its run cycle opened, and the event
    /// that announces the start; the log threshold's setting is recorded under the
    /// time `at`.
    pub fn run(&self, at: Moment) -> (started: (Proxy, ProxyEvent))
        ensures
            started.0@ == ProxyState::initial(
                self@.port,
                ProxyView::Min,
                self@.filter(),
                (LoggerView { level: LogLevel::Info, logs: Seq::empty() }).with_level(
                    self@.log_level,
                    stamp_of(at),
                ),
            ).started(),
            started.1@ == ProxyEventView::Starting,
    {
        let mut traffic_filter = TrafficFilter::default();
        traffic_filter.set_enabled(self.traffic_filter);
        traffic_filter.set_filter_type(self.traffic_filter_type);
        traffic_filter.set_filter_list(clone_strings(&self.traffic_filter_list));
        let mut proxy = Proxy::new(
            self.port.clone(),
            ProxyView::Min,
            traffic_filter,
            self.log_level,
            at,
        );
        let event = proxy.run();
        (proxy, event)
    }
}

} // verus!

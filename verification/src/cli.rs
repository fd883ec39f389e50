//! The command line of the reader.

use vstd::prelude::*;
use crate::config::{
    default_json_filename, default_module_name, default_process_name, default_txt_filename,
    DEFAULT_INTERVAL_MS, DEFAULT_MAX_RETRIES,
};
use crate::text::{chars_of, find_char, first_index_of, range_is, string_from, texts};

verus! {

/// What the command line asks for.
#[derive(Debug, Clone, PartialEq, Eq)]
pub struct Cli {
    /// Path of the configuration file.
    pub config: String,
    /// Turns debugging output on.
    pub debug: bool,
    /// Turns the text file off.
    pub no_txt: bool,
    /// Turns the JSON file off.
    pub no_json: bool,
    /// Name of the text file.
    pub txt_file: String,
    /// Name of the JSON file.
    pub json_file: String,
    /// Milliseconds between two samples.
    pub interval: u64,
    /// Retry budget.
    pub retries: u32,
    /// Name of the player's process.
    pub process: String,
    /// Name of the player's module.
    pub module: String,
    /// Turns all console output off.
    pub quiet: bool,
    /// Asks for the version.
    pub version: bool,
    /// Asks for the usage text.
    pub help: bool,
}

/// A command line as plain mathematical values.
pub struct CliView {
    pub config: Seq<char>,
    pub debug: bool,
    pub no_txt: bool,
    pub no_json: bool,
    pub txt_file: Seq<char>,
    pub json_file: Seq<char>,
    pub interval: u64,
    pub retries: u32,
    pub process: Seq<char>,
    pub module: Seq<char>,
    pub quiet: bool,
    pub version: bool,
    pub help: bool,
}

impl View for Cli {
    type V = CliView;

    open spec fn view(&self) -> CliView {
        CliView {
            config: self.config@,
            debug: self.debug,
            no_txt: self.no_txt,
            no_json: self.no_json,
            txt_file: self.txt_file@,
            json_file: self.json_file@,
            interval: self.interval,
            retries: self.retries,
            process: self.process@,
            module: self.module@,
            quiet: self.quiet,
            version: self.version,
            help: self.help,
        }
    }
}

/// Why a command line is refused. `position` counts the arguments from zero.
#[derive(Debug, Clone, Copy, PartialEq, Eq, Structural)]
pub enum CliError {
    /// The argument at `position` names nothing that the command line knows,
    /// or is a value that nothing asked for.
    UnknownArgument { position: usize },
    /// The option at `position` was left without its value.
    MissingValue { position: usize },
    /// The switch at `position` was given a value.
    UnexpectedValue { position: usize },
    /// The value at `position` is not a number, or too large a one.
    InvalidNumber { position: usize },
    /// The argument at `position` sets what was set before.
    Repeated { position: usize },
}

/// The switches: arguments that take no value.
#[derive(Debug, Clone, Copy, PartialEq, Eq, Structural)]
pub enum Switch {
    Debug,
    NoTxt,
    NoJson,
    Quiet,
    Version,
    Help,
}

/// The options: arguments that take a value.
#[derive(Debug, Clone, Copy, PartialEq, Eq, Structural)]
pub enum Setting {
    Config,
    TxtFile,
    JsonFile,
    Interval,
    Retries,
    Process,
    Module,
}

/// The switch that a long name stands for.
pub open spec fn long_switch(name: Seq<char>) -> Option<Switch> {
    if name == "debug"@ {
        Some(Switch::Debug)
    } else if name == "no-txt"@ {
        Some(Switch::NoTxt)
    } else if name == "no-json"@ {
        Some(Switch::NoJson)
    } else if name == "quiet"@ {
        Some(Switch::Quiet)
    } else if name == "version"@ {
        Some(Switch::Version)
    } else if name == "help"@ {
        Some(Switch::Help)
    } else {
        None
    }
}

/// The option that a long name stands for.
pub open spec fn long_setting(name: Seq<char>) -> Option<Setting> {
    if name == "config"@ {
        Some(Setting::Config)
    } else if name == "txt-file"@ {
        Some(Setting::TxtFile)
    } else if name == "json-file"@ {
        Some(Setting::JsonFile)
    } else if name == "interval"@ {
        Some(Setting::Interval)
    } else if name == "retries"@ {
        Some(Setting::Retries)
    } else if name == "process"@ {
        Some(Setting::Process)
    } else if name == "module"@ {
        Some(Setting::Module)
    } else {
        None
    }
}

/// The switch that a short letter stands for.
pub open spec fn short_switch(letter: char) -> Option<Switch> {
    if letter == 'd' {
        Some(Switch::Debug)
    } else if letter == 'q' {
        Some(Switch::Quiet)
    } else if letter == 'h' {
        Some(Switch::Help)
    } else {
        None
    }
}

/// The option that a short letter stands for.
pub open spec fn short_setting(letter: char) -> Option<Setting> {
    if letter == 'c' {
        Some(Setting::Config)
    } else if letter == 'i' {
        Some(Setting::Interval)
    } else if letter == 'r' {
        Some(Setting::Retries)
    } else {
        None
    }
}

/// Whether `c` is a decimal digit.
pub open spec fn is_digit(c: char) -> bool {
    '0' <= c <= '9'
}

/// The number that a row of decimal digits stands for.
pub open spec fn digits_value(digits: Seq<char>) -> nat
    decreases digits.len(),
{
    if digits.len() == 0 {
        0
    } else {
        digits_value(digits.drop_last()) * 10 + (digits.last() as nat - '0' as nat) as nat
    }
}

/// The digits of a number's text: the text without a plus sign in front.
pub open spec fn unsigned_part(text: Seq<char>) -> Seq<char> {
    if text.len() > 0 && text[0] == '+' {
        text.skip(1)
    } else {
        text
    }
}

/// The number that `text` stands for: one or more decimal digits, with or
/// without a plus sign in front. Nothing else is a number.
pub open spec fn number_of(text: Seq<char>) -> Option<nat> {
    let digits = unsigned_part(text);
    if digits.len() > 0 && (forall|i: int| 0 <= i < digits.len() ==> is_digit(#[trigger] digits[i])) {
        Some(digits_value(digits))
    } else {
        None
    }
}

/// The number that `text` stands for, if it is one and not above `max`.
pub open spec fn number_up_to(text: Seq<char>, max: nat) -> Option<nat> {
    match number_of(text) {
        Some(n) => if n <= max {
            Some(n)
        } else {
            None
        },
        None => None,
    }
}

/// What has been gathered from a command line so far: for each option its
/// value, if it was given, and for each switch whether it was given.
pub struct DraftView {
    pub config: Option<Seq<char>>,
    pub txt_file: Option<Seq<char>>,
    pub json_file: Option<Seq<char>>,
    pub interval: Option<u64>,
    pub retries: Option<u32>,
    pub process: Option<Seq<char>>,
    pub module: Option<Seq<char>>,
    pub debug: bool,
    pub no_txt: bool,
    pub no_json: bool,
    pub quiet: bool,
    pub version: bool,
    pub help: bool,
}

/// The text of an optional string.
pub open spec fn text_of(value: Option<String>) -> Option<Seq<char>> {
    match value {
        Some(text) => Some(text@),
        None => None,
    }
}

impl DraftView {
    /// The draft of an empty command line.
    pub open spec fn empty() -> DraftView {
        DraftView {
            config: None,
            txt_file: None,
            json_file: None,
            interval: None,
            retries: None,
            process: None,
            module: None,
            debug: false,
            no_txt: false,
            no_json: false,
            quiet: false,
            version: false,
            help: false,
        }
    }

    /// Whether `switch` was given.
    pub open spec fn switched(self, switch: Switch) -> bool {
        match switch {
            Switch::Debug => self.debug,
            Switch::NoTxt => self.no_txt,
            Switch::NoJson => self.no_json,
            Switch::Quiet => self.quiet,
            Switch::Version => self.version,
            Switch::Help => self.help,
        }
    }

    /// The draft with `switch` given.
    pub open spec fn with_switch(self, switch: Switch) -> DraftView {
        match switch {
            Switch::Debug => DraftView { debug: true, ..self },
            Switch::NoTxt => DraftView { no_txt: true, ..self },
            Switch::NoJson => DraftView { no_json: true, ..self },
            Switch::Quiet => DraftView { quiet: true, ..self },
            Switch::Version => DraftView { version: true, ..self },
            Switch::Help => DraftView { help: true, ..self },
        }
    }

    /// Whether `setting` has a value.
    pub open spec fn has(self, setting: Setting) -> bool {
        match setting {
            Setting::Config => self.config is Some,
            Setting::TxtFile => self.txt_file is Some,
            Setting::JsonFile => self.json_file is Some,
            Setting::Interval => self.interval is Some,
            Setting::Retries => self.retries is Some,
            Setting::Process => self.process is Some,
            Setting::Module => self.module is Some,
        }
    }

    /// The draft after a switch at `position`: a switch may be given once.
    pub open spec fn set_switch(self, switch: Switch, position: usize) -> Result<
        DraftView,
        CliError,
    > {
        if self.switched(switch) {
            Err(CliError::Repeated { position })
        } else {
            Ok(self.with_switch(switch))
        }
    }

    /// The draft after `value` was given for `setting` at `position`: an
    /// option may be given once, the interval must be a number that fits 64
    /// bits and the retry budget one that fits 32, and every text is taken as
    /// it is.
    pub open spec fn set_value(self, setting: Setting, value: Seq<char>, position: usize) -> Result<
        DraftView,
        CliError,
    > {
        if self.has(setting) {
            Err(CliError::Repeated { position })
        } else {
            match setting {
                Setting::Config => Ok(DraftView { config: Some(value), ..self }),
                Setting::TxtFile => Ok(DraftView { txt_file: Some(value), ..self }),
                Setting::JsonFile => Ok(DraftView { json_file: Some(value), ..self }),
                Setting::Process => Ok(DraftView { process: Some(value), ..self }),
                Setting::Module => Ok(DraftView { module: Some(value), ..self }),
                Setting::Interval => match number_up_to(value, u64::MAX as nat) {
                    Some(n) => Ok(DraftView { interval: Some(n as u64), ..self }),
                    None => Err(CliError::InvalidNumber { position }),
                },
                Setting::Retries => match number_up_to(value, u32::MAX as nat) {
                    Some(n) => Ok(DraftView { retries: Some(n as u32), ..self }),
                    None => Err(CliError::InvalidNumber { position }),
                },
            }
        }
    }

    /// The command line that the draft amounts to: what was given, and the
    /// default for every option that was not.
    pub open spec fn finish(self) -> CliView {
        CliView {
            config: match self.config {
                Some(text) => text,
                None => default_config_path(),
            },
            debug: self.debug,
            no_txt: self.no_txt,
            no_json: self.no_json,
            txt_file: match self.txt_file {
                Some(text) => text,
                None => default_txt_filename(),
            },
            json_file: match self.json_file {
                Some(text) => text,
                None => default_json_filename(),
            },
            interval: match self.interval {
                Some(n) => n,
                None => DEFAULT_INTERVAL_MS,
            },
            retries: match self.retries {
                Some(n) => n,
                None => DEFAULT_MAX_RETRIES,
            },
            process: match self.process {
                Some(text) => text,
                None => default_process_name(),
            },
            module: match self.module {
                Some(text) => text,
                None => default_module_name(),
            },
            quiet: self.quiet,
            version: self.version,
            help: self.help,
        }
    }
}

/// Path of the configuration file by default.
pub open spec fn default_config_path() -> Seq<char> {
    "config.toml"@
}

/// Whether `arg` is the bare double dash, after which nothing is read as an
/// option.
pub open spec fn is_escape(arg: Seq<char>) -> bool {
    arg.len() == 2 && arg[0] == '-' && arg[1] == '-'
}

/// Whether `arg` has the form of a long argument: two dashes and more.
pub open spec fn is_long(arg: Seq<char>) -> bool {
    arg.len() > 2 && arg[0] == '-' && arg[1] == '-'
}

/// Whether `arg` has the form of a group of short arguments: one dash and at
/// least one letter.
pub open spec fn is_short(arg: Seq<char>) -> bool {
    arg.len() >= 2 && arg[0] == '-' && arg[1] != '-'
}

/// The position of the first equals sign of a long argument, or its length
/// if it has none.
pub open spec fn first_equals(arg: Seq<char>) -> int {
    first_index_of(arg, '=', 2)
}

/// The name of a long argument: what stands between the two dashes and the
/// first equals sign.
pub open spec fn long_name(arg: Seq<char>) -> Seq<char> {
    arg.subrange(2, first_equals(arg))
}

/// Whether a long argument carries a value behind an equals sign.
pub open spec fn has_attached(arg: Seq<char>) -> bool {
    first_equals(arg) < arg.len()
}

/// The value that a long argument carries behind its first equals sign.
pub open spec fn attached_value(arg: Seq<char>) -> Seq<char> {
    arg.skip(first_equals(arg) + 1)
}

/// What a long argument at `position` does to the draft, and the option that
/// is left waiting for its value, if any. A switch takes no value; an option
/// takes the one behind the equals sign, or else waits for the next argument.
pub open spec fn long_step(arg: Seq<char>, draft: DraftView, position: usize) -> Result<
    (DraftView, Option<Setting>),
    CliError,
> {
    match long_switch(long_name(arg)) {
        Some(switch) => if has_attached(arg) {
            Err(CliError::UnexpectedValue { position })
        } else {
            match draft.set_switch(switch, position) {
                Ok(next) => Ok((next, None)),
                Err(error) => Err(error),
            }
        },
        None => match long_setting(long_name(arg)) {
            Some(setting) => if has_attached(arg) {
                match draft.set_value(setting, attached_value(arg), position) {
                    Ok(next) => Ok((next, None)),
                    Err(error) => Err(error),
                }
            } else {
                Ok((draft, Some(setting)))
            },
            None => Err(CliError::UnknownArgument { position }),
        },
    }
}

/// What a group of short arguments does to the draft from its letter at
/// `from` on, and the option that is left waiting for its value, if any.
/// Switches may follow one another; the first option ends the group and takes
/// the rest of it for its value, without a leading equals sign, or else waits
/// for the next argument.
pub open spec fn short_step(arg: Seq<char>, from: int, draft: DraftView, position: usize) -> Result<
    (DraftView, Option<Setting>),
    CliError,
>
    decreases arg.len() - from,
{
    if from >= arg.len() || from < 0 {
        Ok((draft, None))
    } else {
        match short_switch(arg[from]) {
            Some(switch) => match draft.set_switch(switch, position) {
                Ok(next) => short_step(arg, from + 1, next, position),
                Err(error) => Err(error),
            },
            None => match short_setting(arg[from]) {
                Some(setting) => if from + 1 >= arg.len() {
                    Ok((draft, Some(setting)))
                } else {
                    match draft.set_value(setting, short_value(arg, from), position) {
                        Ok(next) => Ok((next, None)),
                        Err(error) => Err(error),
                    }
                },
                None => Err(CliError::UnknownArgument { position }),
            },
        }
    }
}

/// The value attached to the short option at `from`: the rest of the group,
/// without a leading equals sign.
pub open spec fn short_value(arg: Seq<char>, from: int) -> Seq<char> {
    if arg[from + 1] == '=' {
        arg.skip(from + 2)
    } else {
        arg.skip(from + 1)
    }
}

/// Whether `arg` is read as an argument of its own even where a value is
/// awaited, so that the value is missing: a known option, a known switch
/// without a value, or a group that starts with a known letter.
pub open spec fn interrupts(arg: Seq<char>) -> bool {
    if is_long(arg) {
        long_setting(long_name(arg)) is Some || (long_switch(long_name(arg)) is Some
            && !has_attached(arg))
    } else if is_short(arg) {
        short_switch(arg[1]) is Some || short_setting(arg[1]) is Some
    } else {
        false
    }
}

/// The position of the option that waits for its value.
pub open spec fn waiting_at(pending: Option<(Setting, usize)>) -> usize {
    match pending {
        Some((_, position)) => position,
        None => 0,
    }
}

/// The draft that the arguments from `at` on lead to.
///
/// `pending` is the option that waits for its value, with its position;
/// `escaped` tells that the double dash has passed. Behind the double dash
/// every argument is refused, as the command line takes no free values. An
/// argument that starts with a dash, other than the dash alone, is never a
/// value.
pub open spec fn parse_from(
    args: Seq<Seq<char>>,
    at: int,
    draft: DraftView,
    pending: Option<(Setting, usize)>,
    escaped: bool,
) -> Result<DraftView, CliError>
    decreases args.len() - at,
{
    if at >= args.len() || at < 0 {
        if pending is Some {
            Err(CliError::MissingValue { position: waiting_at(pending) })
        } else {
            Ok(draft)
        }
    } else if escaped {
        Err(CliError::UnknownArgument { position: at as usize })
    } else if is_escape(args[at]) {
        parse_from(args, at + 1, draft, pending, true)
    } else if is_long(args[at]) || is_short(args[at]) {
        if pending is Some && interrupts(args[at]) {
            Err(CliError::MissingValue { position: waiting_at(pending) })
        } else {
            let step = if is_long(args[at]) {
                long_step(args[at], draft, at as usize)
            } else {
                short_step(args[at], 1, draft, at as usize)
            };
            match step {
                Ok((next, waiting)) => parse_from(
                    args,
                    at + 1,
                    next,
                    match waiting {
                        Some(setting) => Some((setting, at as usize)),
                        None => None,
                    },
                    false,
                ),
                Err(error) => Err(error),
            }
        }
    } else {
        match pending {
            Some((setting, _)) => match draft.set_value(setting, args[at], at as usize) {
                Ok(next) => parse_from(args, at + 1, next, None, false),
                Err(error) => Err(error),
            },
            None => Err(CliError::UnknownArgument { position: at as usize }),
        }
    }
}

/// The command line that `args` spell, or why they spell none.
pub open spec fn command_line(args: Seq<Seq<char>>) -> Result<CliView, CliError> {
    match parse_from(args, 0, DraftView::empty(), None, false) {
        Ok(draft) => Ok(draft.finish()),
        Err(error) => Err(error),
    }
}

/// What has been gathered from a command line so far.
struct Draft {
    config: Option<String>,
    txt_file: Option<String>,
    json_file: Option<String>,
    interval: Option<u64>,
    retries: Option<u32>,
    process: Option<String>,
    module: Option<String>,
    debug: bool,
    no_txt: bool,
    no_json: bool,
    quiet: bool,
    version: bool,
    help: bool,
}

impl View for Draft {
    type V = DraftView;

    closed spec fn view(&self) -> DraftView {
        DraftView {
            config: text_of(self.config),
            txt_file: text_of(self.txt_file),
            json_file: text_of(self.json_file),
            interval: self.interval,
            retries: self.retries,
            process: text_of(self.process),
            module: text_of(self.module),
            debug: self.debug,
            no_txt: self.no_txt,
            no_json: self.no_json,
            quiet: self.quiet,
            version: self.version,
            help: self.help,
        }
    }
}

/// A value is never below the value of its first digits.
proof fn lemma_digits_grow(digits: Seq<char>, count: int)
    requires
        0 <= count <= digits.len(),
    ensures
        digits_value(digits.take(count)) <= digits_value(digits),
    decreases digits.len() - count,
{
    if count < digits.len() {
        lemma_digits_grow(digits, count + 1);
        assert(digits.take(count + 1).drop_last() =~= digits.take(count));
    } else {
        assert(digits.take(count) =~= digits);
    }
}

/// Reads the number that `chars` spell, if it is one and fits 64 bits.
fn parse_number(chars: &Vec<char>) -> (number: Option<u64>)
    ensures
        number == match number_up_to(chars@, u64::MAX as nat) {
            Some(n) => Some(n as u64),
            None => None::<u64>,
        },
{
    let start: usize = if chars.len() > 0 && chars[0] == '+' {
        1
    } else {
        0
    };
    let ghost digits = unsigned_part(chars@);
    if start == chars.len() {
        return None;
    }
    let mut value: u64 = 0;
    let mut i: usize = start;
    while i < chars.len()
        invariant
            start <= i <= chars@.len(),
            digits == chars@.skip(start as int),
            digits == unsigned_part(chars@),
            digits.len() > 0,
            forall|j: int| 0 <= j < i - start ==> is_digit(#[trigger] digits[j]),
            value == digits_value(digits.take(i - start)),
        decreases chars@.len() - i,
    {
        let c: char = chars[i];
        if c < '0' || c > '9' {
            assert(!is_digit(digits[i - start]));
            return None;
        }
        let digit: u64 = (c as u32 - '0' as u32) as u64;
        proof {
            assert(digits.take(i - start + 1).drop_last() =~= digits.take(i - start));
            if forall|j: int| 0 <= j < digits.len() ==> is_digit(#[trigger] digits[j]) {
                lemma_digits_grow(digits, i - start + 1);
            }
        }
        if value > (u64::MAX - digit) / 10 {
            return None;
        }
        value = value * 10 + digit;
        i += 1;
    }
    assert(digits.take(i - start) =~= digits);
    Some(value)
}

/// The switch that the long name in `chars` from `start` up to `end` stands
/// for.
fn long_switch_named(chars: &Vec<char>, start: usize, end: usize) -> (switch: Option<Switch>)
    requires
        start <= end <= chars@.len(),
    ensures
        switch == long_switch(chars@.subrange(start as int, end as int)),
{
    if range_is(chars, start, end, "debug") {
        Some(Switch::Debug)
    } else if range_is(chars, start, end, "no-txt") {
        Some(Switch::NoTxt)
    } else if range_is(chars, start, end, "no-json") {
        Some(Switch::NoJson)
    } else if range_is(chars, start, end, "quiet") {
        Some(Switch::Quiet)
    } else if range_is(chars, start, end, "version") {
        Some(Switch::Version)
    } else if range_is(chars, start, end, "help") {
        Some(Switch::Help)
    } else {
        None
    }
}

/// The option that the long name in `chars` from `start` up to `end` stands
/// for.
fn long_setting_named(chars: &Vec<char>, start: usize, end: usize) -> (setting: Option<Setting>)
    requires
        start <= end <= chars@.len(),
    ensures
        setting == long_setting(chars@.subrange(start as int, end as int)),
{
    if range_is(chars, start, end, "config") {
        Some(Setting::Config)
    } else if range_is(chars, start, end, "txt-file") {
        Some(Setting::TxtFile)
    } else if range_is(chars, start, end, "json-file") {
        Some(Setting::JsonFile)
    } else if range_is(chars, start, end, "interval") {
        Some(Setting::Interval)
    } else if range_is(chars, start, end, "retries") {
        Some(Setting::Retries)
    } else if range_is(chars, start, end, "process") {
        Some(Setting::Process)
    } else if range_is(chars, start, end, "module") {
        Some(Setting::Module)
    } else {
        None
    }
}

/// The switch that a short letter stands for.
fn short_switch_for(letter: char) -> (switch: Option<Switch>)
    ensures
        switch == short_switch(letter),
{
    if letter == 'd' {
        Some(Switch::Debug)
    } else if letter == 'q' {
        Some(Switch::Quiet)
    } else if letter == 'h' {
        Some(Switch::Help)
    } else {
        None
    }
}

/// The option that a short letter stands for.
fn short_setting_for(letter: char) -> (setting: Option<Setting>)
    ensures
        setting == short_setting(letter),
{
    if letter == 'c' {
        Some(Setting::Config)
    } else if letter == 'i' {
        Some(Setting::Interval)
    } else if letter == 'r' {
        Some(Setting::Retries)
    } else {
        None
    }
}

impl Draft {
    /// The draft of an empty command line.
    fn new() -> (draft: Draft)
        ensures
            draft@ == DraftView::empty(),
    {
        Draft {
            config: None,
            txt_file: None,
            json_file: None,
            interval: None,
            retries: None,
            process: None,
            module: None,
            debug: false,
            no_txt: false,
            no_json: false,
            quiet: false,
            version: false,
            help: false,
        }
    }

    /// Records a switch given at `position`.
    fn switch_on(&mut self, switch: Switch, position: usize) -> (outcome: Result<(), CliError>)
        ensures
            match outcome {
                Ok(_) => old(self)@.set_switch(switch, position) == Ok::<DraftView, CliError>(
                    final(self)@,
                ),
                Err(error) => old(self)@.set_switch(switch, position) == Err::<
                    DraftView,
                    CliError,
                >(error),
            },
    {
        let given = match switch {
            Switch::Debug => self.debug,
            Switch::NoTxt => self.no_txt,
            Switch::NoJson => self.no_json,
            Switch::Quiet => self.quiet,
            Switch::Version => self.version,
            Switch::Help => self.help,
        };
        if given {
            return Err(CliError::Repeated { position });
        }
        match switch {
            Switch::Debug => {
                self.debug = true;
            },
            Switch::NoTxt => {
                self.no_txt = true;
            },
            Switch::NoJson => {
                self.no_json = true;
            },
            Switch::Quiet => {
                self.quiet = true;
            },
            Switch::Version => {
                self.version = true;
            },
            Switch::Help => {
                self.help = true;
            },
        }
        Ok(())
    }

    /// Records the value given for `setting` at `position`.
    fn assign(&mut self, setting: Setting, value: String, position: usize) -> (outcome: Result<
        (),
        CliError,
    >)
        ensures
            match outcome {
                Ok(_) => old(self)@.set_value(setting, value@, position) == Ok::<
                    DraftView,
                    CliError,
                >(final(self)@),
                Err(error) => old(self)@.set_value(setting, value@, position) == Err::<
                    DraftView,
                    CliError,
                >(error),
            },
    {
        let given = match setting {
            Setting::Config => self.config.is_some(),
            Setting::TxtFile => self.txt_file.is_some(),
            Setting::JsonFile => self.json_file.is_some(),
            Setting::Interval => self.interval.is_some(),
            Setting::Retries => self.retries.is_some(),
            Setting::Process => self.process.is_some(),
            Setting::Module => self.module.is_some(),
        };
        if given {
            return Err(CliError::Repeated { position });
        }
        match setting {
            Setting::Config => {
                self.config = Some(value);
            },
            Setting::TxtFile => {
                self.txt_file = Some(value);
            },
            Setting::JsonFile => {
                self.json_file = Some(value);
            },
            Setting::Process => {
                self.process = Some(value);
            },
            Setting::Module => {
                self.module = Some(value);
            },
            Setting::Interval => {
                let chars = chars_of(value.as_str());
                match parse_number(&chars) {
                    Some(n) => {
                        self.interval = Some(n);
                    },
                    None => {
                        return Err(CliError::InvalidNumber { position });
                    },
                }
            },
            Setting::Retries => {
                let chars = chars_of(value.as_str());
                match parse_number(&chars) {
                    Some(n) => {
                        if n > u32::MAX as u64 {
                            return Err(CliError::InvalidNumber { position });
                        }
                        self.retries = Some(n as u32);
                    },
                    None => {
                        return Err(CliError::InvalidNumber { position });
                    },
                }
            },
        }
        Ok(())
    }

    /// The command line that the draft amounts to.
    fn finish(self) -> (cli: Cli)
        ensures
            cli@ == self@.finish(),
    {
        Cli {
            config: match self.config {
                Some(text) => text,
                None => "config.toml".to_owned(),
            },
            debug: self.debug,
            no_txt: self.no_txt,
            no_json: self.no_json,
            txt_file: match self.txt_file {
                Some(text) => text,
                None => "now_playing.txt".to_owned(),
            },
            json_file: match self.json_file {
                Some(text) => text,
                None => "now_playing.json".to_owned(),
            },
            interval: match self.interval {
                Some(n) => n,
                None => DEFAULT_INTERVAL_MS,
            },
            retries: match self.retries {
                Some(n) => n,
                None => DEFAULT_MAX_RETRIES,
            },
            process: match self.process {
                Some(text) => text,
                None => "QQMusic.exe".to_owned(),
            },
            module: match self.module {
                Some(text) => text,
                None => "QQMusic.dll".to_owned(),
            },
            quiet: self.quiet,
            version: self.version,
            help: self.help,
        }
    }
}

/// Takes a long argument into the draft and tells which option is left
/// waiting for its value.
fn take_long(chars: &Vec<char>, draft: &mut Draft, position: usize) -> (outcome: Result<
    Option<Setting>,
    CliError,
>)
    requires
        is_long(chars@),
    ensures
        match outcome {
            Ok(waiting) => long_step(chars@, old(draft)@, position) == Ok::<
                (DraftView, Option<Setting>),
                CliError,
            >((final(draft)@, waiting)),
            Err(error) => long_step(chars@, old(draft)@, position) == Err::<
                (DraftView, Option<Setting>),
                CliError,
            >(error),
        },
{
    let cut = find_char(chars, '=', 2);
    let attached = cut < chars.len();
    match long_switch_named(chars, 2, cut) {
        Some(switch) => {
            if attached {
                return Err(CliError::UnexpectedValue { position });
            }
            draft.switch_on(switch, position)?;
            Ok(None)
        },
        None => match long_setting_named(chars, 2, cut) {
            Some(setting) => {
                if attached {
                    let value = string_from(chars, cut + 1, chars.len());
                    draft.assign(setting, value, position)?;
                    Ok(None)
                } else {
                    Ok(Some(setting))
                }
            },
            None => Err(CliError::UnknownArgument { position }),
        },
    }
}

/// Takes a group of short arguments into the draft and tells which option is
/// left waiting for its value.
fn take_short(chars: &Vec<char>, draft: &mut Draft, position: usize) -> (outcome: Result<
    Option<Setting>,
    CliError,
>)
    requires
        is_short(chars@),
    ensures
        match outcome {
            Ok(waiting) => short_step(chars@, 1, old(draft)@, position) == Ok::<
                (DraftView, Option<Setting>),
                CliError,
            >((final(draft)@, waiting)),
            Err(error) => short_step(chars@, 1, old(draft)@, position) == Err::<
                (DraftView, Option<Setting>),
                CliError,
            >(error),
        },
{
    let mut from: usize = 1;
    while from < chars.len()
        invariant
            1 <= from <= chars@.len(),
            short_step(chars@, from as int, draft@, position) == short_step(
                chars@,
                1,
                old(draft)@,
                position,
            ),
        decreases chars@.len() - from,
    {
        let letter: char = chars[from];
        match short_switch_for(letter) {
            Some(switch) => {
                draft.switch_on(switch, position)?;
            },
            None => match short_setting_for(letter) {
                Some(setting) => {
                    if from + 1 >= chars.len() {
                        return Ok(Some(setting));
                    }
                    let start: usize = if chars[from + 1] == '=' {
                        from + 2
                    } else {
                        from + 1
                    };
                    let value = string_from(chars, start, chars.len());
                    draft.assign(setting, value, position)?;
                    return Ok(None);
                },
                None => {
                    return Err(CliError::UnknownArgument { position });
                },
            },
        }
        from += 1;
    }
    Ok(None)
}

/// Tells whether an argument that has the form of a long or short one is
/// read as an argument of its own even where a value is awaited.
fn interrupting(chars: &Vec<char>) -> (yes: bool)
    requires
        is_long(chars@) || is_short(chars@),
    ensures
        yes == interrupts(chars@),
{
    if chars[1] == '-' {
        let cut = find_char(chars, '=', 2);
        if long_setting_named(chars, 2, cut).is_some() {
            true
        } else {
            long_switch_named(chars, 2, cut).is_some() && cut >= chars.len()
        }
    } else {
        short_switch_for(chars[1]).is_some() || short_setting_for(chars[1]).is_some()
    }
}

impl Cli {
    /// Reads a command line. `args` are the arguments behind the program's
    /// name.
    ///
    /// A long argument is two dashes and a name; a short one is one dash and
    /// a letter, and short switches may stand together behind one dash. An
    /// option takes its value from behind an equals sign, for a short option
    /// also from right behind its letter, or else from the next argument.
    /// Nothing may be given twice, and nothing may stand behind a bare double
    /// dash. What is not given has its default.
    pub fn parse_args(args: &Vec<String>) -> (parsed: Result<Cli, CliError>)
        ensures
            match parsed {
                Ok(cli) => command_line(texts(args@)) == Ok::<CliView, CliError>(cli@),
                Err(error) => command_line(texts(args@)) == Err::<CliView, CliError>(error),
            },
    {
        let mut draft = Draft::new();
        let mut pending: Option<(Setting, usize)> = None;
        let mut escaped = false;
        let mut at: usize = 0;
        while at < args.len()
            invariant
                at <= args@.len(),
                parse_from(texts(args@), at as int, draft@, pending, escaped) == parse_from(
                    texts(args@),
                    0,
                    DraftView::empty(),
                    None,
                    false,
                ),
            decreases args@.len() - at,
        {
            let chars = chars_of(args[at].as_str());
            if escaped {
                return Err(CliError::UnknownArgument { position: at });
            }
            let dashes: usize = if chars.len() >= 2 && chars[0] == '-' {
                if chars[1] == '-' {
                    2
                } else {
                    1
                }
            } else {
                0
            };
            if dashes == 2 && chars.len() == 2 {
                escaped = true;
            } else if dashes > 0 {
                match pending {
                    Some((_, position)) => {
                        if interrupting(&chars) {
                            return Err(CliError::MissingValue { position });
                        }
                    },
                    None => {},
                }
                let waiting = if dashes == 2 {
                    take_long(&chars, &mut draft, at)?
                } else {
                    take_short(&chars, &mut draft, at)?
                };
                pending = match waiting {
                    Some(setting) => Some((setting, at)),
                    None => None,
                };
            } else {
                match pending {
                    Some((setting, _)) => {
                        draft.assign(setting, args[at].clone(), at)?;
                        pending = None;
                    },
                    None => {
                        return Err(CliError::UnknownArgument { position: at });
                    },
                }
            }
            at += 1;
        }
        match pending {
            Some((_, position)) => Err(CliError::MissingValue { position }),
            None => Ok(draft.finish()),
        }
    }
}

} // verus!

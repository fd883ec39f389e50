//! Where the fields stand in the player's memory, and how the reader runs.

use vstd::prelude::*;
use crate::cli::Cli;

verus! {

/// Everything the reader is configured with.
#[derive(Debug, Clone)]
pub struct Config {
    pub memory_offsets: MemoryOffsets,
    pub settings: Settings,
}

/// The place of each field: an offset from the module's base, the chain of
/// pointers that leads on from there, and for text fields the offset of the
/// string from where the chain ends.
#[derive(Debug, Clone)]
pub struct MemoryOffsets {
    pub song_name_offset: usize,
    pub song_singer_offset: usize,
    pub song_album_offset: usize,
    pub song_lyrics_offset: usize,
    pub current_time_offset: usize,
    pub total_time_offset: usize,
    pub song_name_chain: Vec<usize>,
    pub song_singer_chain: Vec<usize>,
    pub song_album_chain: Vec<usize>,
    pub song_lyrics_chain: Vec<usize>,
    pub current_time_chain: Vec<usize>,
    pub total_time_chain: Vec<usize>,
    pub title_offset: usize,
}

/// How the reader runs: its pace, its target and its outputs.
///
/// `max_retries` is carried along for the configuration's sake; sampling
/// never retries a read.
#[derive(Debug, Clone)]
pub struct Settings {
    pub update_interval_ms: u64,
    pub max_retries: u32,
    pub process_name: String,
    pub module_name: String,
    pub output_txt: bool,
    pub output_json: bool,
    pub txt_filename: String,
    pub json_filename: String,
    pub debug_mode: bool,
    pub max_string_length: usize,
}

/// Offset from the module's base at which every field starts by default.
pub const DEFAULT_FIELD_OFFSET: usize = 0x2B2C;

/// Offset of a string from the end of its pointer chain by default.
pub const DEFAULT_TITLE_OFFSET: usize = 0x90C;

/// Milliseconds between two samples by default.
pub const DEFAULT_INTERVAL_MS: u64 = 500;

/// Retry budget by default.
pub const DEFAULT_MAX_RETRIES: u32 = 3;

/// Longest string, in characters, that is read by default.
pub const DEFAULT_MAX_STRING_LENGTH: usize = 4096;

/// Name of the player's process by default.
pub open spec fn default_process_name() -> Seq<char> {
    "QQMusic.exe"@
}

/// Name of the player's module by default.
pub open spec fn default_module_name() -> Seq<char> {
    "QQMusic.dll"@
}

/// Name of the text output file by default.
pub open spec fn default_txt_filename() -> Seq<char> {
    "now_playing.txt"@
}

/// Name of the JSON output file by default.
pub open spec fn default_json_filename() -> Seq<char> {
    "now_playing.json"@
}

impl MemoryOffsets {
    /// Whether every field starts at the default offset, behind a chain of one
    /// link with offset zero, strings at the default string offset.
    pub open spec fn is_default(&self) -> bool {
        &&& self.song_name_offset == DEFAULT_FIELD_OFFSET
        &&& self.song_singer_offset == DEFAULT_FIELD_OFFSET
        &&& self.song_album_offset == DEFAULT_FIELD_OFFSET
        &&& self.song_lyrics_offset == DEFAULT_FIELD_OFFSET
        &&& self.current_time_offset == DEFAULT_FIELD_OFFSET
        &&& self.total_time_offset == DEFAULT_FIELD_OFFSET
        &&& self.song_name_chain@ =~= seq![0usize]
        &&& self.song_singer_chain@ =~= seq![0usize]
        &&& self.song_album_chain@ =~= seq![0usize]
        &&& self.song_lyrics_chain@ =~= seq![0usize]
        &&& self.current_time_chain@ =~= seq![0usize]
        &&& self.total_time_chain@ =~= seq![0usize]
        &&& self.title_offset == DEFAULT_TITLE_OFFSET
    }
}

impl Settings {
    /// Whether every setting has its default value: both outputs on under
    /// their default names, debugging off.
    pub open spec fn is_default(&self) -> bool {
        &&& self.update_interval_ms == DEFAULT_INTERVAL_MS
        &&& self.max_retries == DEFAULT_MAX_RETRIES
        &&& self.process_name@ == default_process_name()
        &&& self.module_name@ == default_module_name()
        &&& self.output_txt
        &&& self.output_json
        &&& self.txt_filename@ == default_txt_filename()
        &&& self.json_filename@ == default_json_filename()
        &&& !self.debug_mode
        &&& self.max_string_length == DEFAULT_MAX_STRING_LENGTH
    }
}

impl Default for Config {
    /// The configuration that is used where no file supplies one.
    fn default() -> (config: Config)
        ensures
            config.memory_offsets.is_default(),
            config.settings.is_default(),
    {
        Config {
            memory_offsets: MemoryOffsets {
                song_name_offset: DEFAULT_FIELD_OFFSET,
                song_singer_offset: DEFAULT_FIELD_OFFSET,
                song_album_offset: DEFAULT_FIELD_OFFSET,
                song_lyrics_offset: DEFAULT_FIELD_OFFSET,
                current_time_offset: DEFAULT_FIELD_OFFSET,
                total_time_offset: DEFAULT_FIELD_OFFSET,
                song_name_chain: vec![0],
                song_singer_chain: vec![0],
                song_album_chain: vec![0],
                song_lyrics_chain: vec![0],
                current_time_chain: vec![0],
                total_time_chain: vec![0],
                title_offset: DEFAULT_TITLE_OFFSET,
            },
            settings: Settings {
                update_interval_ms: DEFAULT_INTERVAL_MS,
                max_retries: DEFAULT_MAX_RETRIES,
                process_name: "QQMusic.exe".to_owned(),
                module_name: "QQMusic.dll".to_owned(),
                output_txt: true,
                output_json: true,
                txt_filename: "now_playing.txt".to_owned(),
                json_filename: "now_playing.json".to_owned(),
                debug_mode: false,
                max_string_length: DEFAULT_MAX_STRING_LENGTH,
            },
        }
    }
}

/// The text that wins where the command line may replace a configured one:
/// the command line's, unless it is the default.
pub open spec fn text_override(
    configured: Seq<char>,
    given: Seq<char>,
    default: Seq<char>,
) -> Seq<char> {
    if given != default {
        given
    } else {
        configured
    }
}

/// Tells whether two strings hold the same text.
fn same_text(a: &String, b: &str) -> (same: bool)
    ensures
        same == (a@ == b@),
{
    let other = b.to_owned();
    *a == other
}

/// Lets the command line override the configuration.
///
/// A switch of the command line turns debugging on or an output off; it
/// never does the opposite. A value of the command line replaces the
/// configured one unless it is the command line's default, which leaves the
/// configured value in place. Offsets and the length limit are not touched.
pub fn apply_cli_overrides(config: Config, args: &Cli) -> (overridden: Config)
    ensures
        overridden.memory_offsets == config.memory_offsets,
        overridden.settings.max_string_length == config.settings.max_string_length,
        overridden.settings.debug_mode == (config.settings.debug_mode || args.debug),
        overridden.settings.output_txt == (config.settings.output_txt && !args.no_txt),
        overridden.settings.output_json == (config.settings.output_json && !args.no_json),
        overridden.settings.txt_filename@ == text_override(
            config.settings.txt_filename@,
            args.txt_file@,
            default_txt_filename(),
        ),
        overridden.settings.json_filename@ == text_override(
            config.settings.json_filename@,
            args.json_file@,
            default_json_filename(),
        ),
        overridden.settings.process_name@ == text_override(
            config.settings.process_name@,
            args.process@,
            default_process_name(),
        ),
        overridden.settings.module_name@ == text_override(
            config.settings.module_name@,
            args.module@,
            default_module_name(),
        ),
        overridden.settings.update_interval_ms == if args.interval != DEFAULT_INTERVAL_MS {
            args.interval
        } else {
            config.settings.update_interval_ms
        },
        overridden.settings.max_retries == if args.retries != DEFAULT_MAX_RETRIES {
            args.retries
        } else {
            config.settings.max_retries
        },
{
    let mut config = config;
    if args.debug {
        config.settings.debug_mode = true;
    }
    if args.no_txt {
        config.settings.output_txt = false;
    }
    if args.no_json {
        config.settings.output_json = false;
    }
    if !same_text(&args.txt_file, "now_playing.txt") {
        config.settings.txt_filename = args.txt_file.clone();
    }
    if !same_text(&args.json_file, "now_playing.json") {
        config.settings.json_filename = args.json_file.clone();
    }
    if args.interval != DEFAULT_INTERVAL_MS {
        config.settings.update_interval_ms = args.interval;
    }
    if args.retries != DEFAULT_MAX_RETRIES {
        config.settings.max_retries = args.retries;
    }
    if !same_text(&args.process, "QQMusic.exe") {
        config.settings.process_name = args.process.clone();
    }
    if !same_text(&args.module, "QQMusic.dll") {
        config.settings.module_name = args.module.clone();
    }
    config
}

} // verus!

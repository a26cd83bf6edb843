// Configuration values the core consumes, their defaults, and their
// validity rules.  Loading the file and decoding JSON happen outside this
// crate; the decoded values are validated here, and the defaults written by
// the init step are built here.  Paths are carried as plain strings.

use crate::util::join_with;
use vstd::prelude::*;

verus! {

/// Relies on `num_cpus::get`, which returns the number of available logical
/// CPUs and always returns at least 1.
#[verifier::external_body]
fn host_cpu_count() -> (n: usize)
    ensures
        n >= 1,
{
    num_cpus::get()
}

/// Relies on `dirs::config_dir`, which yields the user's configuration
/// directory where the platform defines one.  The result depends on the
/// machine and environment; a path that is not valid UTF-8 comes back as
/// `None` too.
#[verifier::external_body]
fn config_home_dir() -> (r: Option<String>)
{
    dirs::config_dir().and_then(|p| p.to_str().map(|s| s.to_owned()))
}

/// The path under a base directory where the application keeps a file: the
/// base, then `vodbot`, then each part, slash-separated.
pub open spec fn vodbot_path_text(base: Seq<char>, parts: Seq<Seq<char>>) -> Seq<char> {
    if parts.len() == 0 {
        base + "/vodbot"@
    } else {
        base + "/vodbot/"@ + join_with(parts, "/"@)
    }
}

fn vodbot_path_under(base: &str, parts: &Vec<String>) -> (r: String)
    ensures
        r@ == vodbot_path_text(base@, parts@.map_values(|s: String| s@)),
{
    let mut s = String::new();
    s.append(base);
    if parts.len() == 0 {
        s.append("/vodbot");
    } else {
        s.append("/vodbot/");
        let joined = crate::util::join_strings(parts, "/");
        s.append(joined.as_str());
    }
    s
}

/// Whether a path is the application's directory for the given parts under
/// some base directory.
pub open spec fn is_vodbot_path(p: Seq<char>, parts: Seq<Seq<char>>) -> bool {
    exists|base: Seq<char>| p == vodbot_path_text(base, parts)
}

/// The application's directory for the given path parts, under the user's
/// configuration directory: `None` where the platform reports none.
pub fn from_vodbot_dir(parts: &Vec<String>) -> (r: Option<String>)
    ensures
        r matches Some(p) ==> is_vodbot_path(p@, parts@.map_values(|s: String| s@)),
{
    match config_home_dir() {
        Some(base) => {
            let p = vodbot_path_under(base.as_str(), parts);
            proof {
                assert(p@ == vodbot_path_text(base@, parts@.map_values(|s: String| s@)));
            }
            Some(p)
        },
        None => None,
    }
}

/// Where the configuration file lives by default: `config.json` in the
/// application's directory.  `None` where the platform reports no
/// configuration directory.
pub fn default_config_location() -> (r: Option<String>)
    ensures
        r matches Some(p) ==> is_vodbot_path(p@, seq!["config.json"@]),
{
    let mut parts: Vec<String> = Vec::new();
    parts.push("config.json".to_owned());
    let r = from_vodbot_dir(&parts);
    proof {
        assert(parts@.map_values(|s: String| s@) =~= seq!["config.json"@]);
    }
    r
}

#[derive(Debug, Clone)]
pub enum ChatExportFormat {
    Raw,
    Ytt,
    Rt,
    Sami,
}

#[derive(Debug, Clone)]
pub enum FFMPEGLogLevel {
    Quiet,
    Panic,
    Fatal,
    Error,
    Warning,
    Info,
    Verbose,
    Debug,
    Trace,
}

/// The value the remux invocation passes as its log-verbosity argument.
pub open spec fn loglevel_arg_text(l: FFMPEGLogLevel) -> Seq<char> {
    match l {
        FFMPEGLogLevel::Quiet => "quiet"@,
        FFMPEGLogLevel::Panic => "panic"@,
        FFMPEGLogLevel::Fatal => "fatal"@,
        FFMPEGLogLevel::Error => "error"@,
        FFMPEGLogLevel::Warning => "warning"@,
        FFMPEGLogLevel::Info => "info"@,
        FFMPEGLogLevel::Verbose => "verbose"@,
        FFMPEGLogLevel::Debug => "debug"@,
        FFMPEGLogLevel::Trace => "trace"@,
    }
}

impl FFMPEGLogLevel {
    /// The lowercase name the external remux process expects.
    pub fn as_arg(&self) -> (r: &'static str)
        ensures
            r@ == loglevel_arg_text(*self),
    {
        match self {
            FFMPEGLogLevel::Quiet => "quiet",
            FFMPEGLogLevel::Panic => "panic",
            FFMPEGLogLevel::Fatal => "fatal",
            FFMPEGLogLevel::Error => "error",
            FFMPEGLogLevel::Warning => "warning",
            FFMPEGLogLevel::Info => "info",
            FFMPEGLogLevel::Verbose => "verbose",
            FFMPEGLogLevel::Debug => "debug",
            FFMPEGLogLevel::Trace => "trace",
        }
    }
}

#[derive(Debug, Clone)]
pub enum YTTAlignment {
    Left,
    Right,
    Center,
}

#[derive(Debug, Clone)]
pub enum YTTAnchor {
    TopLeft,
    TopCenter,
    TopRight,
    CenterLeft,
    CenterCenter,
    CenterRight,
    BottomLeft,
    BottomCenter,
    BottomRight,
}

/// One watched channel and which of its content kinds are saved.
#[derive(Debug, Clone)]
pub struct ConfigChannel {
    pub username: String,
    pub save_vods: bool,
    pub save_highlights: bool,
    pub save_uploads: bool,
    pub save_premieres: bool,
    pub save_clips: bool,
    pub save_chat: bool,
}

#[derive(Debug, Clone)]
pub struct ConfigPull {
    pub save_vods: bool,
    pub save_highlights: bool,
    pub save_uploads: bool,
    pub save_premieres: bool,
    pub save_clips: bool,
    pub save_chat: bool,
    pub gql_client_id: String,
    pub download_workers: usize,
    pub connection_retries: usize,
    pub connection_timeout: usize,
}

#[derive(Debug, Clone)]
pub struct ConfigChat {
    pub export_format: ChatExportFormat,
    pub message_display_time: usize,
    pub randomize_uncolored_names: bool,
    pub ytt_align: YTTAlignment,
    pub ytt_anchor: YTTAnchor,
    pub ytt_position_x: u8,
    pub ytt_position_y: u8,
}

#[derive(Debug, Clone)]
pub struct ConfigStage {
    pub timezone: String,
    pub description_macros: Vec<String>,
    pub delete_on_export: bool,
    pub delete_on_upload: bool,
}

#[derive(Debug, Clone)]
pub struct ConfigExport {
    pub ffmpeg_loglevel: FFMPEGLogLevel,
    pub ffmpeg_stderr: Option<String>,
    pub video_enable: bool,
    pub chat_enable: bool,
    pub thumbnail_enable: bool,
}

#[derive(Debug, Clone)]
pub struct ConfigUpload {
    pub chat_enable: bool,
    pub thumbnail_enable: bool,
    pub client_url: String,
    pub client_path: String,
    pub session_path: String,
    pub chunk_size: usize,
    pub oauth_port: u16,
    pub notify_subscribers: bool,
}

#[derive(Debug, Clone)]
pub struct ConfigDirectories {
    pub vods: String,
    pub chat: String,
    pub highlights: String,
    pub uploads: String,
    pub premieres: String,
    pub clips: String,
    pub temp: String,
    pub stage: String,
    pub thumbnail: String,
}

#[derive(Debug, Clone)]
pub struct Config {
    pub channels: Vec<ConfigChannel>,
    pub pull: ConfigPull,
    pub chat: ConfigChat,
    pub stage: ConfigStage,
    pub export: ConfigExport,
    pub upload: ConfigUpload,
    pub directories: ConfigDirectories,
}

impl Default for ConfigChannel {
    fn default() -> (r: Self)
        ensures
            r.username@ == Seq::<char>::empty(),
            r.save_vods && r.save_highlights && r.save_uploads && r.save_premieres && r.save_clips
                && r.save_chat,
    {
        ConfigChannel {
            username: String::new(),
            save_vods: true,
            save_highlights: true,
            save_uploads: true,
            save_premieres: true,
            save_clips: true,
            save_chat: true,
        }
    }
}

impl Default for ConfigPull {
    fn default() -> (r: Self)
        ensures
            r.save_vods && r.save_highlights && r.save_uploads && r.save_premieres && r.save_clips
                && r.save_chat,
            r.gql_client_id@ == "kd1unb4b3q4t58fwlpcbzcbnm76a8fp"@,
            r.download_workers >= 1,
            r.connection_retries == 5,
            r.connection_timeout == 10,
    {
        ConfigPull {
            save_vods: true,
            save_highlights: true,
            save_uploads: true,
            save_premieres: true,
            save_clips: true,
            save_chat: true,
            gql_client_id: "kd1unb4b3q4t58fwlpcbzcbnm76a8fp".to_owned(),
            download_workers: host_cpu_count(),
            connection_retries: 5,
            connection_timeout: 10,
        }
    }
}

impl Default for ConfigChat {
    fn default() -> (r: Self)
        ensures
            r.export_format is Ytt,
            r.message_display_time == 10,
            r.randomize_uncolored_names,
            r.ytt_align is Left,
            r.ytt_anchor is BottomLeft,
            r.ytt_position_x == 0,
            r.ytt_position_y == 100,
    {
        ConfigChat {
            export_format: ChatExportFormat::Ytt,
            message_display_time: 10,
            randomize_uncolored_names: true,
            ytt_align: YTTAlignment::Left,
            ytt_anchor: YTTAnchor::BottomLeft,
            ytt_position_x: 0,
            ytt_position_y: 100,
        }
    }
}

impl Default for ConfigStage {
    fn default() -> (r: Self)
        ensures
            r.timezone@ == "+0000"@,
            r.description_macros@.len() == 0,
            !r.delete_on_export,
            !r.delete_on_upload,
    {
        ConfigStage {
            timezone: "+0000".to_owned(),
            description_macros: Vec::new(),
            delete_on_export: false,
            delete_on_upload: false,
        }
    }
}

impl Default for ConfigExport {
    fn default() -> (r: Self)
        ensures
            r.ffmpeg_loglevel is Warning,
            r.ffmpeg_stderr is None,
            r.video_enable && r.chat_enable && r.thumbnail_enable,
    {
        ConfigExport {
            ffmpeg_loglevel: FFMPEGLogLevel::Warning,
            ffmpeg_stderr: None,
            video_enable: true,
            chat_enable: true,
            thumbnail_enable: true,
        }
    }
}

impl Default for ConfigUpload {
    fn default() -> (r: Self)
        ensures
            r.chat_enable && r.thumbnail_enable,
            r.client_url@ == "https://www.friendteam.biz/assets/vodbot-youtube-credentials"@,
            exists|base: Seq<char>|
                r.client_path@ == vodbot_path_text(base, seq!["youtube_client.json"@])
                    && r.session_path@ == vodbot_path_text(base, seq!["youtube_session.json"@]),
            r.chunk_size == 262144,
            r.oauth_port == 8080,
            r.notify_subscribers,
    {
        let base = match config_home_dir() {
            Some(b) => b,
            None => String::new(),
        };
        let mut client_parts: Vec<String> = Vec::new();
        client_parts.push("youtube_client.json".to_owned());
        let mut session_parts: Vec<String> = Vec::new();
        session_parts.push("youtube_session.json".to_owned());
        let client_path = vodbot_path_under(base.as_str(), &client_parts);
        let session_path = vodbot_path_under(base.as_str(), &session_parts);
        proof {
            assert(client_parts@.map_values(|s: String| s@) =~= seq!["youtube_client.json"@]);
            assert(session_parts@.map_values(|s: String| s@) =~= seq!["youtube_session.json"@]);
        }
        ConfigUpload {
            chat_enable: true,
            thumbnail_enable: true,
            client_url: "https://www.friendteam.biz/assets/vodbot-youtube-credentials".to_owned(),
            client_path,
            session_path,
            chunk_size: 262144,
            oauth_port: 8080,
            notify_subscribers: true,
        }
    }
}

impl Default for ConfigDirectories {
    fn default() -> (r: Self)
        ensures
            exists|base: Seq<char>|
                {
                    &&& r.vods@ == vodbot_path_text(base, seq!["videos"@, "vods"@])
                    &&& r.chat@ == vodbot_path_text(base, seq!["videos"@, "chat"@])
                    &&& r.highlights@ == vodbot_path_text(base, seq!["videos"@, "highlights"@])
                    &&& r.uploads@ == vodbot_path_text(base, seq!["videos"@, "uploads"@])
                    &&& r.premieres@ == vodbot_path_text(base, seq!["videos"@, "premieres"@])
                    &&& r.clips@ == vodbot_path_text(base, seq!["videos"@, "clips"@])
                    &&& r.temp@ == vodbot_path_text(base, seq!["temp"@])
                    &&& r.stage@ == vodbot_path_text(base, seq!["stage"@])
                    &&& r.thumbnail@ == vodbot_path_text(base, seq!["thumbnail"@])
                },
    {
        let base = match config_home_dir() {
            Some(b) => b,
            None => String::new(),
        };
        let r = ConfigDirectories {
            vods: vodbot_video_dir(base.as_str(), "vods"),
            chat: vodbot_video_dir(base.as_str(), "chat"),
            highlights: vodbot_video_dir(base.as_str(), "highlights"),
            uploads: vodbot_video_dir(base.as_str(), "uploads"),
            premieres: vodbot_video_dir(base.as_str(), "premieres"),
            clips: vodbot_video_dir(base.as_str(), "clips"),
            temp: vodbot_single_dir(base.as_str(), "temp"),
            stage: vodbot_single_dir(base.as_str(), "stage"),
            thumbnail: vodbot_single_dir(base.as_str(), "thumbnail"),
        };
        r
    }
}

fn vodbot_video_dir(base: &str, kind: &str) -> (r: String)
    ensures
        r@ == vodbot_path_text(base@, seq!["videos"@, kind@]),
{
    let mut parts: Vec<String> = Vec::new();
    parts.push("videos".to_owned());
    parts.push(kind.to_owned());
    let r = vodbot_path_under(base, &parts);
    proof {
        assert(parts@.map_values(|s: String| s@) =~= seq!["videos"@, kind@]);
    }
    r
}

fn vodbot_single_dir(base: &str, kind: &str) -> (r: String)
    ensures
        r@ == vodbot_path_text(base@, seq![kind@]),
{
    let mut parts: Vec<String> = Vec::new();
    parts.push(kind.to_owned());
    let r = vodbot_path_under(base, &parts);
    proof {
        assert(parts@.map_values(|s: String| s@) =~= seq![kind@]);
    }
    r
}

impl Default for Config {
    fn default() -> (r: Self)
        ensures
            r.channels@.len() == 0,
    {
        Config {
            channels: Vec::new(),
            pull: ConfigPull::default(),
            chat: ConfigChat::default(),
            stage: ConfigStage::default(),
            export: ConfigExport::default(),
            upload: ConfigUpload::default(),
            directories: ConfigDirectories::default(),
        }
    }
}

// ------------------------------------------------------------------
// Validity.

pub open spec fn is_digit_char(c: char) -> bool {
    48 <= (c as int) <= 57
}

/// A channel name must be 3 to 24 characters long.
pub open spec fn username_ok(s: Seq<char>) -> bool {
    3 <= s.len() <= 24
}

/// A timezone must be a sign and exactly four digits.
pub open spec fn timezone_ok(s: Seq<char>) -> bool {
    &&& s.len() == 5
    &&& (s[0] == '+' || s[0] == '-')
    &&& forall|i: int| 1 <= i < 5 ==> is_digit_char(#[trigger] s[i])
}

/// Every rule a loaded configuration must satisfy: channel name lengths,
/// caption positions within the frame, a sane upload chunk size, and a
/// well-formed timezone.
pub open spec fn config_valid(c: Config) -> bool {
    &&& forall|i: int|
        0 <= i < c.channels@.len() ==> username_ok((#[trigger] c.channels@[i]).username@)
    &&& c.chat.ytt_position_x <= 100
    &&& c.chat.ytt_position_y <= 100
    &&& c.upload.chunk_size >= 262144
    &&& timezone_ok(c.stage.timezone@)
}

fn timezone_ok_exec(s: &String) -> (r: bool)
    ensures
        r == timezone_ok(s@),
{
    let n = s.as_str().unicode_len();
    if n != 5 {
        return false;
    }
    let sign = s.as_str().get_char(0);
    if !(sign == '+' || sign == '-') {
        return false;
    }
    let mut i: usize = 1;
    while i < 5
        invariant
            1 <= i <= 5,
            n == s@.len(),
            s@.len() == 5,
            forall|j: int| 1 <= j < i ==> is_digit_char(#[trigger] s@[j]),
        decreases 5 - i,
    {
        let c = s.as_str().get_char(i);
        if !(c as u32 >= 48 && c as u32 <= 57) {
            return false;
        }
        i = i + 1;
    }
    true
}

/// Checks a loaded configuration against every validity rule.
pub fn validate_config(c: &Config) -> (r: bool)
    ensures
        r == config_valid(*c),
{
    let mut i: usize = 0;
    while i < c.channels.len()
        invariant
            i <= c.channels@.len(),
            forall|j: int| 0 <= j < i ==> username_ok((#[trigger] c.channels@[j]).username@),
        decreases c.channels@.len() - i,
    {
        let n = c.channels[i].username.as_str().unicode_len();
        if n < 3 || n > 24 {
            return false;
        }
        i = i + 1;
    }
    if c.chat.ytt_position_x > 100 {
        return false;
    }
    if c.chat.ytt_position_y > 100 {
        return false;
    }
    if c.upload.chunk_size < 262144 {
        return false;
    }
    timezone_ok_exec(&c.stage.timezone)
}

} // verus!

//! Process configuration and the naming of the log file.

use vstd::prelude::*;
use vstd::string::*;

verus! {

/// The settings the process is started with. They are read once and do
/// not change while the process runs.
#[derive(Debug, PartialEq, Eq)]
pub struct Config {
    /// The address to listen on.
    pub ip: String,
    /// The port to listen on.
    pub static_port: Option<u16>,
    /// The name under which the process shows up in its log.
    pub name_for_port_manager: String,
    /// The directory that receives the log files.
    pub logs_dir: String,
    /// The number of workers that serve requests.
    pub workers_count: usize,
}

impl Clone for Config {
    fn clone(&self) -> (copy: Self)
        ensures
            copy.ip@ == self.ip@,
            copy.static_port == self.static_port,
            copy.name_for_port_manager@ == self.name_for_port_manager@,
            copy.logs_dir@ == self.logs_dir@,
            copy.workers_count == self.workers_count,
    {
        Config {
            ip: self.ip.clone(),
            static_port: self.static_port,
            name_for_port_manager: self.name_for_port_manager.clone(),
            logs_dir: self.logs_dir.clone(),
            workers_count: self.workers_count,
        }
    }
}

/// Whether a character is white space: the characters with the Unicode
/// property `White_Space`.
pub open spec fn is_white_space(c: char) -> bool {
    let code = c as u32;
    ||| 0x09 <= code <= 0x0D
    ||| code == 0x20
    ||| code == 0x85
    ||| code == 0xA0
    ||| code == 0x1680
    ||| 0x2000 <= code <= 0x200A
    ||| code == 0x2028
    ||| code == 0x2029
    ||| code == 0x202F
    ||| code == 0x205F
    ||| code == 0x3000
}

/// Whether a text holds nothing but white space.
pub open spec fn is_blank(text: Seq<char>) -> bool {
    forall|i: int| 0 <= i < text.len() ==> is_white_space(#[trigger] text[i])
}

/// The directory that log files go to: the configured one, or `./logs`
/// where none is configured.
pub open spec fn log_directory_text(logs_dir: Seq<char>) -> Seq<char> {
    if is_blank(logs_dir) {
        "./logs"@
    } else {
        logs_dir
    }
}

/// The path of the log file of the process `log_name` for the day `date`.
pub open spec fn log_path_text(log_dir: Seq<char>, log_name: Seq<char>, date: Seq<char>) -> Seq<
    char,
> {
    log_dir + "/"@ + log_name + "_"@ + date + ".log"@
}

fn white_space(c: char) -> (space: bool)
    ensures
        space == is_white_space(c),
{
    let code: u32 = c as u32;
    (0x09 <= code && code <= 0x0D) || code == 0x20 || code == 0x85 || code == 0xA0 || code
        == 0x1680 || (0x2000 <= code && code <= 0x200A) || code == 0x2028 || code == 0x2029
        || code == 0x202F || code == 0x205F || code == 0x3000
}

fn blank(text: &str) -> (all_space: bool)
    ensures
        all_space == is_blank(text@),
{
    let n = text.unicode_len();
    let mut i: usize = 0;
    while i < n
        invariant
            n == text@.len(),
            i <= n,
            forall|k: int| 0 <= k < i ==> is_white_space(#[trigger] text@[k]),
        decreases n - i,
    {
        if !white_space(text.get_char(i)) {
            return false;
        }
        i = i + 1;
    }
    true
}

/// The directory that log files go to: `logs_dir` itself, or `./logs`
/// where `logs_dir` is empty or holds only white space.
pub fn log_directory<'a>(logs_dir: &'a str) -> (dir: &'a str)
    ensures
        dir@ == log_directory_text(logs_dir@),
{
    if blank(logs_dir) {
        "./logs"
    } else {
        logs_dir
    }
}

/// The path of the log file in `log_dir` of the process `log_name` for
/// the day `date`: `<log_dir>/<log_name>_<date>.log`.
pub fn log_file_path(log_dir: &str, log_name: &str, date: &str) -> (path: String)
    ensures
        path@ == log_path_text(log_dir@, log_name@, date@),
{
    let mut path = String::from_str(log_dir);
    path.append("/");
    path.append(log_name);
    path.append("_");
    path.append(date);
    path.append(".log");
    path
}

/// `chrono::Local::now` with `DateTime::format` and `DelayedFormat::write_to`:
/// the present moment on the local clock, written out as the pattern
/// `format` says. `None` where the formatter reports an error, as it does
/// for a pattern it does not know. Nothing is claimed of the text, which
/// changes with the clock and the time zone.
#[verifier::external_body]
fn local_time_text(format: &str) -> (text: Option<String>) {
    let mut text = String::new();
    match chrono::Local::now().format(format).write_to(&mut text) {
        Ok(_) => Some(text),
        Err(_) => None,
    }
}

/// The path of today's log file for the process `log_name`: the file
/// named `<log_name>_<day>_<month>_<year>.log` in the directory that
/// [`log_directory`] gives for `logs_dir`. `None` where the local date
/// cannot be written out.
pub fn todays_log_file(logs_dir: &str, log_name: &str) -> (path: Option<String>)
    ensures
        path matches Some(p) ==> exists|date: Seq<char>|
            p@ == #[trigger] log_path_text(log_directory_text(logs_dir@), log_name@, date),
{
    log_file_for(logs_dir, log_name, local_time_text("%d_%m_%Y"))
}

/// The path of the log file of the process `log_name` for the day that
/// `date` names, in the directory that [`log_directory`] gives for
/// `logs_dir`. There is a path exactly where there is a date.
pub fn log_file_for(logs_dir: &str, log_name: &str, date: Option<String>) -> (path: Option<String>)
    ensures
        date matches Some(day) ==> (path matches Some(p) && p@ == log_path_text(
            log_directory_text(logs_dir@),
            log_name@,
            day@,
        )),
        date is None ==> path is None,
{
    match date {
        Some(day) => Some(log_file_path(log_directory(logs_dir), log_name, day.as_str())),
        None => None,
    }
}

} // verus!

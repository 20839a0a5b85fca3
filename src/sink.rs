use vstd::prelude::*;
use vstd::string::StringExecFns;
use vstd::string::StrSliceExecFns;
use crate::level::{Level, level_name};

verus! {

/// One record as the facade hands it to a logger.
pub struct LogRecord {
    pub level: Level,
    pub module_name: Option<String>,
    pub message: String,
}

/// `n` spaces.
pub open spec fn spaces(n: nat) -> Seq<char> {
    Seq::new(n, |i: int| ' ')
}

/// `s` followed by spaces up to `width` characters; `s` itself when it is
/// already that long.
pub open spec fn pad_right(s: Seq<char>, width: nat) -> Seq<char> {
    if s.len() >= width {
        s
    } else {
        s + spaces((width - s.len()) as nat)
    }
}

/// Everything of a formatted line after its timestamp:
/// ` LEVEL [module] message` and a newline, the level padded to five characters.
pub open spec fn line_tail(level: Level, module_name: Seq<char>, message: Seq<char>) -> Seq<char> {
    seq![' '] + pad_right(level_name(level), 5) + seq![' ', '['] + module_name + seq![']', ' ']
        + message + seq!['\n']
}

/// The line written for a record stamped with `timestamp`.
pub open spec fn line_spec(
    timestamp: Seq<char>,
    level: Level,
    module_name: Seq<char>,
    message: Seq<char>,
) -> Seq<char> {
    timestamp + line_tail(level, module_name, message)
}

/// The module path of a record, empty when it has none.
pub open spec fn module_of(record: &LogRecord) -> Seq<char> {
    match record.module_name {
        Some(m) => m@,
        None => Seq::empty(),
    }
}

/// The tail that every line written for `record` ends with.
pub open spec fn record_tail(record: &LogRecord) -> Seq<char> {
    line_tail(record.level, module_of(record), record.message@)
}

/// `s` ends with `t`.
pub open spec fn ends_with(s: Seq<char>, t: Seq<char>) -> bool {
    t.len() <= s.len() && s.subrange(s.len() - t.len(), s.len() as int) == t
}

/// `t` occurs in `s` as a contiguous run.
pub open spec fn contains(s: Seq<char>, t: Seq<char>) -> bool {
    exists|i: int| 0 <= i && i + t.len() <= s.len() && #[trigger] s.subrange(i, i + t.len()) == t
}

/// The format of the timestamp that opens each line.
pub const TIMESTAMP_FORMAT: &'static str = "%Y-%m-%d %H:%M:%S";

/// time::Tm, a broken-down local time, carried unopened from time::now to
/// time::strftime.
#[verifier::external_type_specification]
#[verifier::external_body]
pub struct ExTm(time::Tm);

/// Relies on time::now: the local time at the call; nothing is known of its value.
pub assume_specification[ time::now ]() -> time::Tm;

/// Relies on time::strftime: formats `tm` by `fmt`; `None` where the format
/// or the time cannot be written. Nothing is stated of the text.
#[verifier::external_body]
fn format_time(fmt: &str, tm: &time::Tm) -> (r: Option<String>) {
    time::strftime(fmt, tm).ok()
}

/// The local time now in [`TIMESTAMP_FORMAT`], or an empty stamp where it
/// cannot be written.
pub fn timestamp_now() -> String {
    let tm = time::now();
    match format_time(TIMESTAMP_FORMAT, &tm) {
        Some(s) => s,
        None => String::new(),
    }
}

/// Builds the line `timestamp LEVEL [module] message` and a newline, the level
/// left-aligned in five columns.
pub fn format_line(timestamp: &str, level: Level, module_name: &str, message: &str) -> (r: String)
    ensures
        r@ == line_spec(timestamp@, level, module_name@, message@),
{
    proof {
        reveal_strlit(" ");
        reveal_strlit(" [");
        reveal_strlit("] ");
        reveal_strlit("\n");
    }
    let name = level.as_str();
    let mut line = String::from_str(timestamp);
    line.append(" ");
    line.append(name);
    let mut width: usize = name.unicode_len();
    let ghost padded_from = line@;
    while width < 5
        invariant
            name@ == level_name(level),
            name@.len() <= width <= 5 || (name@.len() >= 5 && width == name@.len()),
            padded_from == timestamp@ + seq![' '] + name@,
            line@ == padded_from + spaces((width - name@.len()) as nat),
        decreases 5 - width,
    {
        let ghost before = line@;
        line.append(" ");
        width = width + 1;
        proof {
            reveal_strlit(" ");
            let k = (width - name@.len()) as nat;
            assert(spaces(k) =~= spaces((k - 1) as nat) + seq![' ']);
            assert(line@ =~= before + seq![' ']);
            assert(line@ =~= padded_from + spaces(k));
        }
    }
    proof {
        assert(spaces((width - name@.len()) as nat) =~= pad_right(name@, 5).subrange(
            name@.len() as int,
            pad_right(name@, 5).len() as int,
        ));
        assert(line@ =~= timestamp@ + seq![' '] + pad_right(name@, 5));
    }
    line.append(" [");
    line.append(module_name);
    line.append("] ");
    line.append(message);
    line.append("\n");
    proof {
        assert(line@ =~= line_spec(timestamp@, level, module_name@, message@));
    }
    line
}

/// A formatted line ends with the message it was made for, so the message
/// text occurs in it unchanged.
pub proof fn lemma_line_holds_message(
    line: Seq<char>,
    level: Level,
    module_name: Seq<char>,
    message: Seq<char>,
)
    requires
        ends_with(line, line_tail(level, module_name, message)),
    ensures
        contains(line, message),
{
    let t = line_tail(level, module_name, message);
    let start = line.len() - t.len();
    let head = seq![' '] + pad_right(level_name(level), 5) + seq![' ', '['] + module_name + seq![
        ']',
        ' ',
    ];
    assert(t =~= head + message + seq!['\n']);
    let h = head.len() as int;
    let i = start + h;
    assert(line.subrange(i, i + message.len()) =~= t.subrange(h, h + message.len()));
    assert(t.subrange(h, h + message.len()) =~= message);
    assert(line.subrange(i, i + message.len()) == message);
}

/// The raw sink wrapper: a handle to an externally owned byte sink and the
/// least severe level that it forwards. The handle is only carried, never
/// released: it goes back to whoever attached it.
pub struct RawLogger<H> {
    pub handle: H,
    pub level: Level,
}

impl<H> RawLogger<H> {
    pub fn new(handle: H, level: Level) -> (r: Self)
        ensures
            r.handle == handle,
            r.level == level,
    {
        RawLogger { handle, level }
    }

    /// The handle of the sink.
    pub fn inner(&self) -> (r: &H)
        ensures
            *r == self.handle,
    {
        &self.handle
    }

    /// Whether a record at `level` is forwarded to the sink.
    pub fn enabled(&self, level: Level) -> (r: bool)
        ensures
            r == (level.rank() <= self.level.rank()),
    {
        level.passes(self.level)
    }

    /// The line to write for `record` stamped with `timestamp`, or `None`
    /// where the record is below this sink's level.
    pub fn render(&self, timestamp: &str, record: &LogRecord) -> (r: Option<String>)
        ensures
            r is Some <==> record.level.rank() <= self.level.rank(),
            r matches Some(line) ==> line@ == line_spec(
                timestamp@,
                record.level,
                module_of(record),
                record.message@,
            ),
    {
        if self.enabled(record.level) {
            let module_name: &str = match &record.module_name {
                Some(m) => m.as_str(),
                None => "",
            };
            proof {
                reveal_strlit("");
            }
            Some(format_line(timestamp, record.level, module_name, record.message.as_str()))
        } else {
            None
        }
    }

    /// The line to write for `record`, stamped with the local time now, or
    /// `None` where the record is below this sink's level.
    pub fn log(&self, record: &LogRecord) -> (r: Option<String>)
        ensures
            r is Some <==> record.level.rank() <= self.level.rank(),
            r matches Some(line) ==> ends_with(line@, record_tail(record)),
            r matches Some(line) ==> contains(line@, record.message@),
    {
        let stamp = timestamp_now();
        let r = self.render(stamp.as_str(), record);
        proof {
            if r is Some {
                let line = r->Some_0@;
                let t = record_tail(record);
                assert(line =~= stamp@ + t);
                assert(line.subrange(line.len() - t.len(), line.len() as int) =~= t);
                lemma_line_holds_message(line, record.level, module_of(record), record.message@);
            }
        }
        r
    }
}

} // verus!

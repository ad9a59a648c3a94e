use vstd::prelude::*;

verus! {

/// The severity of a log record, most severe first.
#[derive(Clone, Copy, Debug, PartialEq, Eq, Structural)]
pub enum Level {
    Error,
    Warn,
    Info,
    Debug,
    Trace,
}

/// The most verbose level that is printed, or none at all.
#[derive(Clone, Copy, Debug, PartialEq, Eq, Structural)]
pub enum LevelFilter {
    Off,
    Error,
    Warn,
    Info,
    Debug,
    Trace,
}

/// The rank of a level: larger is more verbose.
pub open spec fn level_rank(l: Level) -> int {
    match l {
        Level::Error => 1,
        Level::Warn => 2,
        Level::Info => 3,
        Level::Debug => 4,
        Level::Trace => 5,
    }
}

/// The rank of the most verbose level a filter lets through; 0 lets none.
pub open spec fn filter_rank(f: LevelFilter) -> int {
    match f {
        LevelFilter::Off => 0,
        LevelFilter::Error => 1,
        LevelFilter::Warn => 2,
        LevelFilter::Info => 3,
        LevelFilter::Debug => 4,
        LevelFilter::Trace => 5,
    }
}

/// The name a level is printed under.
pub open spec fn level_label(l: Level) -> Seq<char> {
    match l {
        Level::Error => "ERROR"@,
        Level::Warn => "WARN"@,
        Level::Info => "INFO"@,
        Level::Debug => "DEBUG"@,
        Level::Trace => "TRACE"@,
    }
}

/// The space that pads the four-letter labels to the width of the others.
pub open spec fn level_filler(l: Level) -> Seq<char> {
    if l == Level::Info || l == Level::Warn { " "@ } else { ""@ }
}

/// The terminal colour a record's label is printed in.
pub open spec fn level_color(l: Level, colors: bool) -> Seq<char> {
    if !colors {
        ""@
    } else {
        match l {
            Level::Warn => "\x1b[0;33m"@,
            Level::Error => "\x1b[0;31m"@,
            Level::Debug => "\x1b[0;36m"@,
            _ => "\x1b[0;37m"@,
        }
    }
}

/// The sequence that restores the default colour after a label.
pub open spec fn color_reset(colors: bool) -> Seq<char> {
    if colors { "\x1b[0;37m"@ } else { ""@ }
}

/// `n` spaces.
pub open spec fn spaces(n: nat) -> Seq<char> {
    Seq::new(n, |i: int| ' ')
}

/// A printed line: coloured label, target padded to the widest target seen
/// so far (`pad` spaces), then the message.
pub open spec fn log_line(level: Level, colors: bool, target: Seq<char>, pad: nat, message: Seq<char>) -> Seq<char> {
    level_color(level, colors) + "["@ + level_label(level) + "]"@ + color_reset(colors) + " "@
        + level_filler(level) + " "@ + target + " "@ + spaces(pad) + " "@ + message
}

/// The console logger's settings and the width of the widest target it has
/// printed.
#[derive(Debug)]
pub struct NgmpLogger {
    pub level_filter: LevelFilter,
    pub enable_colors: bool,
    pub max_target_len: usize,
}

/// A console logger that prints records up to `level_filter`, with terminal
/// colours when `enable_colors` is set.
pub fn init(level_filter: LevelFilter, enable_colors: bool) -> (r: NgmpLogger)
    ensures
        r.level_filter == level_filter,
        r.enable_colors == enable_colors,
        r.max_target_len == 0,
{
    NgmpLogger { level_filter, enable_colors, max_target_len: 0 }
}

fn label_of(level: Level) -> (r: &'static str)
    ensures
        r@ == level_label(level),
{
    match level {
        Level::Error => "ERROR",
        Level::Warn => "WARN",
        Level::Info => "INFO",
        Level::Debug => "DEBUG",
        Level::Trace => "TRACE",
    }
}

fn color_of(level: Level, colors: bool) -> (r: &'static str)
    ensures
        r@ == level_color(level, colors),
{
    if !colors {
        ""
    } else {
        match level {
            Level::Warn => "\x1b[0;33m",
            Level::Error => "\x1b[0;31m",
            Level::Debug => "\x1b[0;36m",
            _ => "\x1b[0;37m",
        }
    }
}

fn reset_of(colors: bool) -> (r: &'static str)
    ensures
        r@ == color_reset(colors),
{
    if colors { "\x1b[0;37m" } else { "" }
}

fn filler_of(level: Level) -> (r: &'static str)
    ensures
        r@ == level_filler(level),
{
    if level == Level::Info || level == Level::Warn { " " } else { "" }
}

impl NgmpLogger {
    /// Whether records of `level` are printed.
    pub fn enabled(&self, level: Level) -> (r: bool)
        ensures
            r == (level_rank(level) <= filter_rank(self.level_filter)),
    {
        let rank: u8 = match level {
            Level::Error => 1,
            Level::Warn => 2,
            Level::Info => 3,
            Level::Debug => 4,
            Level::Trace => 5,
        };
        let limit: u8 = match self.level_filter {
            LevelFilter::Off => 0,
            LevelFilter::Error => 1,
            LevelFilter::Warn => 2,
            LevelFilter::Info => 3,
            LevelFilter::Debug => 4,
            LevelFilter::Trace => 5,
        };
        rank <= limit
    }

    /// The line to print for a record, or `None` when its level is filtered
    /// out. A printed record widens the target column to its target's length
    /// in bytes.
    pub fn log(&mut self, level: Level, target: &str, message: &str) -> (r: Option<String>)
        ensures
            final(self).level_filter == old(self).level_filter,
            final(self).enable_colors == old(self).enable_colors,
            r is None <==> !(level_rank(level) <= filter_rank(old(self).level_filter)),
            r is None ==> final(self).max_target_len == old(self).max_target_len,
            r is Some ==> {
                let width = target.len();
                &&& final(self).max_target_len == if width > old(self).max_target_len { width } else { old(self).max_target_len }
                &&& r->Some_0@ == log_line(level, old(self).enable_colors, target@,
                    (final(self).max_target_len - width) as nat, message@)
            },
    {
        if !self.enabled(level) {
            return None;
        }
        let width = target.len();
        if width > self.max_target_len {
            self.max_target_len = width;
        }
        let pad = self.max_target_len - width;
        let colors = self.enable_colors;
        let mut line = String::new();
        line.append(color_of(level, colors));
        line.append("[");
        line.append(label_of(level));
        line.append("]");
        line.append(reset_of(colors));
        line.append(" ");
        line.append(filler_of(level));
        line.append(" ");
        line.append(target);
        line.append(" ");
        let ghost before_pad = line@;
        let mut k: usize = 0;
        while k < pad
            invariant
                k <= pad,
                line@ == before_pad + spaces(k as nat),
            decreases pad - k,
        {
            proof {
                reveal_strlit(" ");
            }
            line.append(" ");
            k = k + 1;
            assert(line@ =~= before_pad + spaces(k as nat));
        }
        line.append(" ");
        line.append(message);
        assert(line@ =~= log_line(level, colors, target@, pad as nat, message@));
        Some(line)
    }
}

} // verus!

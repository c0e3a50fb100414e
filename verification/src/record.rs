//! Log records and the one-line layout in which the sink prints them.

use crate::level::Level;
use crate::text::{decimal, padded_right};
use crate::timestamp::{Moment, Timestamp};
use vstd::prelude::*;

verus! {

/// The number of columns that the level's name is padded to.
pub const LEVEL_COLUMNS: usize = 8;

/// The printed line of a record:
/// the level's name padded with spaces to eight columns, a space, the
/// timestamp, ` | `, the source file, `:`, the line number, a space and the
/// message.
pub open spec fn line_layout(
    level: Level,
    moment: Moment,
    file: Seq<char>,
    line: nat,
    message: Seq<char>,
) -> Seq<char> {
    padded_right(level.name(), LEVEL_COLUMNS as nat) + seq![' '] + moment.text()
        + seq![' ', '|', ' '] + file + seq![':'] + decimal(line) + seq![' '] + message
}

/// One log call: its level, the time at which it was made, the place in the
/// source that made it, and its message.
///
/// The place is optional in the type because a caller may build a record
/// without one; the sink prints only records that carry both file and line.
#[derive(Debug)]
pub struct LogRecord {
    pub level: Level,
    pub timestamp: Timestamp,
    pub file: Option<String>,
    pub line: Option<u32>,
    pub message: String,
}

impl LogRecord {
    /// Whether the record names both the file and the line that made it.
    pub open spec fn located(self) -> bool {
        self.file is Some && self.line is Some
    }

    /// The line that the sink prints for a located record.
    pub open spec fn layout(self) -> Seq<char>
        recommends
            self.located(),
    {
        line_layout(
            self.level,
            self.timestamp@,
            self.file->0@,
            self.line->0 as nat,
            self.message@,
        )
    }

    /// A record of the given parts, stamped with the local time of the call.
    pub fn capture(
        level: Level,
        file: Option<String>,
        line: Option<u32>,
        message: String,
    ) -> (record: LogRecord)
        ensures
            record.level == level,
            record.file == file,
            record.line == line,
            record.message == message,
            record.timestamp@.valid(),
    {
        LogRecord { level, timestamp: Timestamp::now(), file, line, message }
    }

    /// Whether the record names both the file and the line that made it.
    pub fn has_location(&self) -> (b: bool)
        ensures
            b == self.located(),
    {
        self.file.is_some() && self.line.is_some()
    }
}

/// In every line the level's name stands left-aligned in the first eight
/// columns, blanks fill the rest of them, and after one more blank the
/// timestamp follows: it starts in the tenth column, whatever the level.
pub proof fn lemma_level_column_is_eight_wide(
    level: Level,
    moment: Moment,
    file: Seq<char>,
    line: nat,
    message: Seq<char>,
)
    ensures
        level.name().len() <= LEVEL_COLUMNS,
        line_layout(level, moment, file, line, message).subrange(0, level.name().len() as int)
            == level.name(),
        forall|i: int|
            level.name().len() <= i <= LEVEL_COLUMNS ==> #[trigger] line_layout(
                level,
                moment,
                file,
                line,
                message,
            )[i] == ' ',
        line_layout(level, moment, file, line, message).subrange(
            LEVEL_COLUMNS + 1,
            LEVEL_COLUMNS + 1 + moment.text().len(),
        ) == moment.text(),
{
    let all = line_layout(level, moment, file, line, message);
    let column = padded_right(level.name(), LEVEL_COLUMNS as nat);
    let rest = seq![' ', '|', ' '] + file + seq![':'] + decimal(line) + seq![' '] + message;
    assert(column.len() == LEVEL_COLUMNS);
    assert(all =~= column + seq![' '] + moment.text() + rest);
    assert(all.subrange(0, level.name().len() as int) =~= level.name());
    assert(all.subrange(LEVEL_COLUMNS + 1, LEVEL_COLUMNS + 1 + moment.text().len())
        =~= moment.text());
}

} // verus!

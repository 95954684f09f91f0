//! Event traces of the supervision tests: one record per line.

#[allow(unused_imports)]
use vstd::prelude::*;
use vstd::string::StringExecFns;
use crate::text::{chars_of, decimal};
#[allow(unused_imports)]
use crate::text::decimal_text;

verus! {

pub const ENABLED_MARKER: &'static str = "query-events.enabled";

pub const EVENT_LOG: &'static str = "query.events";

/// A character as it may stand in a field: what would end a field or a record
/// becomes a space.
pub open spec fn clean_char(c: char) -> char {
    if c == '\n' || c == '\r' || c == '\t' || c == '\0' {
        ' '
    } else {
        c
    }
}

/// A field without what would end it.
pub open spec fn cleaned(value: Seq<char>) -> Seq<char> {
    Seq::new(value.len(), |i: int| clean_char(value[i]))
}

/// Makes a field fit its record.
pub fn clean_field(value: &str) -> (field: String)
    ensures
        field@ == cleaned(value@),
{
    let chars = chars_of(value);
    let mut field = String::new();
    let mut index: usize = 0;
    while index < chars.len()
        invariant
            index <= chars@.len(),
            chars@ == value@,
            field@ == cleaned(value@).take(index as int),
        decreases chars@.len() - index,
    {
        let c = chars[index];
        let kept = if c == '\n' || c == '\r' || c == '\t' || c == '\0' {
            ' '
        } else {
            c
        };
        field.push(kept);
        index = index + 1;
        assert(cleaned(value@).take(index as int) =~= cleaned(value@).take(index as int - 1).push(
            cleaned(value@)[index as int - 1],
        ));
    }
    assert(cleaned(value@).take(index as int) =~= cleaned(value@));
    field
}

/// One record of a trace: when, by which process, what, and its detail.
pub fn emit(timestamp: &str, pid: u32, event: &str, detail: &str) -> (line: String)
    ensures
        line@ == timestamp@ + "\t"@ + decimal_text(pid as nat) + "\t"@ + cleaned(event@) + "\t"@
            + cleaned(detail@) + "\n"@,
{
    let mut line = timestamp.to_owned();
    line.append("\t");
    line.append(decimal(pid as u64).as_str());
    line.append("\t");
    line.append(clean_field(event).as_str());
    line.append("\t");
    line.append(clean_field(detail).as_str());
    line.append("\n");
    line
}

/// A cleaned field never ends its record, nor itself.
pub proof fn fields_stay_in_their_record(value: Seq<char>)
    ensures
        forall|i: int|
            0 <= i < cleaned(value).len() ==> #[trigger] cleaned(value)[i] != '\n' && cleaned(
                value,
            )[i] != '\t',
{
}

} // verus!

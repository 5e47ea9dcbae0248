//! Text of the periodic system-load report: an embed with three fields,
//! two load gauges and one memory gauge. The numbers arrive here already
//! formatted (load averages are floating-point readings, which this crate
//! does not hold); the surrounding text is assembled and pinned down here.

use vstd::prelude::*;

use crate::config::embed_color;

verus! {

/// One field of an embed: a bold name, a value line, and whether it sits
/// inline beside its neighbours.
pub struct EmbedField {
    pub name: String,
    pub value: String,
    pub inline: bool,
}

/// The full system-load embed: title, three fields, color.
pub struct SystemLoadReport {
    pub title: String,
    pub fields: Vec<EmbedField>,
    pub color: u32,
}

/// The gauge emoji that opens every telemetry field value.
pub open spec fn gauge_prefix() -> Seq<char> {
    "<:Asset5:1177282027066757170> "@
}

/// A load-average field value: gauge, the formatted percentage, `%`.
pub open spec fn load_field_value_text(pct: Seq<char>) -> Seq<char> {
    gauge_prefix() + pct + "%\n"@
}

/// The memory field value: gauge, free and total megabytes.
pub open spec fn memory_field_value_text(free_mb: Seq<char>, total_mb: Seq<char>) -> Seq<char> {
    gauge_prefix() + free_mb + " MB Free out of "@ + total_mb + " MB\n"@
}

fn load_field_value(pct: &str) -> (r: String)
    ensures
        r@ == load_field_value_text(pct@),
{
    let mut r = String::from_str("<:Asset5:1177282027066757170> ");
    r.append(pct);
    r.append("%\n");
    r
}

fn memory_field_value(free_mb: &str, total_mb: &str) -> (r: String)
    ensures
        r@ == memory_field_value_text(free_mb@, total_mb@),
{
    let mut r = String::from_str("<:Asset5:1177282027066757170> ");
    r.append(free_mb);
    r.append(" MB Free out of ");
    r.append(total_mb);
    r.append(" MB\n");
    r
}

/// Builds the system-load embed from the formatted readings: the fifteen-
/// minute and one-minute load averages as percentages, and free and total
/// memory in megabytes.
pub fn system_load_report(load_fifteen_pct: &str, free_mb: &str, total_mb: &str, load_one_pct:
    &str) -> (r: SystemLoadReport)
    ensures
        r.title@ == "System Resource Load"@,
        r.color == 0x2c2d31,
        r.fields@.len() == 3,
        r.fields@[0].name@ == "CPU Load Average / per 900 tics"@,
        r.fields@[0].value@ == load_field_value_text(load_fifteen_pct@),
        !r.fields@[0].inline,
        r.fields@[1].name@ == "Memory Usage"@,
        r.fields@[1].value@ == memory_field_value_text(free_mb@, total_mb@),
        !r.fields@[1].inline,
        r.fields@[2].name@ == "CPU Load Average / per 60 tics"@,
        r.fields@[2].value@ == load_field_value_text(load_one_pct@),
        !r.fields@[2].inline,
{
    let mut fields: Vec<EmbedField> = Vec::new();
    fields.push(EmbedField {
        name: String::from_str("CPU Load Average / per 900 tics"),
        value: load_field_value(load_fifteen_pct),
        inline: false,
    });
    fields.push(EmbedField {
        name: String::from_str("Memory Usage"),
        value: memory_field_value(free_mb, total_mb),
        inline: false,
    });
    fields.push(EmbedField {
        name: String::from_str("CPU Load Average / per 60 tics"),
        value: load_field_value(load_one_pct),
        inline: false,
    });
    SystemLoadReport { title: String::from_str("System Resource Load"), fields, color: embed_color() }
}

} // verus!

//! The documented rules of layout colors and of the v0 migration, stated on
//! their own terms.

use vstd::prelude::*;

use super::json::{JsonMember, JsonValue};
use super::model::{hex_color, placement_fits, settings_check, GridPlacement, HostSettings, MAX_LAYOUT_BYTES};
use super::repository::{member_value, migration_verdict, schema_version_verdict};

verus! {

/// Whether `b` is an ASCII hexadecimal digit of either case, as
/// `u8::is_ascii_hexdigit` has it.
pub open spec fn ascii_hexdigit(b: u8) -> bool {
    ('0' as u8 <= b && b <= '9' as u8) || ('a' as u8 <= b && b <= 'f' as u8) || ('A' as u8 <= b && b <= 'F' as u8)
}

/// The byte `b` with an ASCII lowercase letter raised to uppercase.
pub open spec fn ascii_upper(b: u8) -> u8 {
    if 'a' as u8 <= b && b <= 'z' as u8 { (b - 32) as u8 } else { b }
}

/// A theme color is `#` followed by three, four, six or eight hexadecimal
/// digits of either case, and nothing else.
pub proof fn law_colors_are_hash_and_three_four_six_or_eight_digits(bytes: Seq<u8>)
    ensures
        hex_color(bytes) <==> {
            &&& bytes.len() >= 1
            &&& bytes[0] == '#' as u8
            &&& ({
                let digits = bytes.len() - 1;
                digits == 3 || digits == 4 || digits == 6 || digits == 8
            })
            &&& forall|i: int| 1 <= i < bytes.len() ==> ascii_hexdigit(#[trigger] bytes[i])
        },
{
}

/// The case of a color's digits does not matter: raising every letter to
/// uppercase keeps a color valid or invalid.
pub proof fn law_color_case_does_not_matter(bytes: Seq<u8>)
    ensures
        hex_color(bytes.map_values(|b: u8| ascii_upper(b))) == hex_color(bytes),
{
    let upper = bytes.map_values(|b: u8| ascii_upper(b));
    assert(upper.len() == bytes.len());
    if hex_color(bytes) {
        assert forall|i: int| 1 <= i < upper.len() implies ascii_hexdigit(#[trigger] upper[i]) by {
            assert(ascii_hexdigit(bytes[i]));
        }
    }
    if hex_color(upper) {
        assert forall|i: int| 1 <= i < bytes.len() implies ascii_hexdigit(#[trigger] bytes[i]) by {
            assert(ascii_hexdigit(upper[i]));
        }
    }
}

/// Whether `t` is the default theme object: background `#07090f`,
/// foreground `#f5f7fb`, accent `#3ee6a8` and warning `#ff4d5e`.
pub open spec fn is_default_theme(t: JsonValue) -> bool {
    t matches JsonValue::Object(m) && {
        &&& member_value(m@, "background"@) matches Some(JsonValue::String(s)) && s@ == "#07090f"@
        &&& member_value(m@, "foreground"@) matches Some(JsonValue::String(s)) && s@ == "#f5f7fb"@
        &&& member_value(m@, "accent"@) matches Some(JsonValue::String(s)) && s@ == "#3ee6a8"@
        &&& member_value(m@, "warning"@) matches Some(JsonValue::String(s)) && s@ == "#ff4d5e"@
    }
}

/// A v0 layout document without a theme is migrated with the default dark
/// theme: background `#07090f`, foreground `#f5f7fb`, accent `#3ee6a8`,
/// warning `#ff4d5e`; a theme it has is kept.
pub proof fn law_v0_layout_gets_the_default_theme(len: nat, members: Vec<JsonMember>, r: Result<JsonValue, super::repository::ConfigError>)
    requires
        len <= MAX_LAYOUT_BYTES,
        schema_version_verdict(JsonValue::Object(members)) == Ok::<u16, super::repository::ConfigError>(0),
        migration_verdict(len, Ok(JsonValue::Object(members)), r),
    ensures
        r matches Ok(JsonValue::Object(out)) && match member_value(members@, "theme"@) {
            None => member_value(out@, "theme"@) matches Some(t) && is_default_theme(t),
            Some(t) => member_value(out@, "theme"@) == Some(t),
        },
{
}

/// Of valid Host settings, the snapshot rate may be 20, 30 or 60 Hz and no
/// other.
pub proof fn law_snapshot_rates(s: HostSettings, hz: u16)
    requires
        settings_check(s) is Ok,
    ensures
        settings_check(HostSettings { snapshot_hz: hz, ..s }) is Ok <==> (hz == 20 || hz == 30 || hz == 60),
{
}

/// Whether `c` is one of the grid's 24 columns.
pub open spec fn grid_column(c: int) -> bool {
    0 <= c < 24
}

/// Whether `r` is one of the grid's 1000 rows.
pub open spec fn grid_row(r: int) -> bool {
    0 <= r < 1000
}

/// A placement fits exactly when it covers at least one cell and every cell
/// it covers lies in the grid's 24 columns and 1000 rows.
pub proof fn law_placements_cover_grid_cells(p: GridPlacement)
    ensures
        placement_fits(p) <==> {
            &&& p.width >= 1
            &&& p.height >= 1
            &&& forall|c: int| p.x <= c < p.x + p.width ==> #[trigger] grid_column(c)
            &&& forall|r: int| p.y <= r < p.y + p.height ==> #[trigger] grid_row(r)
        },
{
    if p.width >= 1 && p.height >= 1 {
        assert(grid_column(p.x + p.width - 1) ==> p.x + p.width <= 24);
        assert(grid_row(p.y + p.height - 1) ==> p.y + p.height <= 1000);
    }
}

} // verus!

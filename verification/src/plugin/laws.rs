//! The documented rule of plugin theme colors, stated on its own terms.

use vstd::prelude::*;

use super::manifest::{hex_color, manifest_check, GamePluginManifest, PluginIngress, PluginPresentation, PluginTheme};
use crate::config::model::utf8;
use crate::config::laws::{ascii_hexdigit, ascii_upper};

verus! {

/// A plugin theme color is `#` followed by exactly six hexadecimal digits of
/// either case, as `u8::is_ascii_hexdigit` has them.
pub proof fn law_plugin_colors_are_hash_and_six_digits(bytes: Seq<u8>)
    ensures
        hex_color(bytes) <==> {
            &&& bytes.len() == 7
            &&& bytes[0] == '#' as u8
            &&& forall|i: int| 1 <= i < 7 ==> ascii_hexdigit(#[trigger] bytes[i])
        },
{
}

/// The case of a plugin color's digits does not matter: raising every
/// letter to uppercase keeps a color valid or invalid.
pub proof fn law_plugin_color_case_does_not_matter(bytes: Seq<u8>)
    ensures
        hex_color(bytes.map_values(|b: u8| ascii_upper(b))) == hex_color(bytes),
{
    let upper = bytes.map_values(|b: u8| ascii_upper(b));
    if hex_color(bytes) {
        assert forall|i: int| 1 <= i < 7 implies ascii_hexdigit(#[trigger] upper[i]) by {
            assert(ascii_hexdigit(bytes[i]));
        }
    }
    if hex_color(upper) {
        assert forall|i: int| 1 <= i < 7 implies ascii_hexdigit(#[trigger] bytes[i]) by {
            assert(ascii_hexdigit(upper[i]));
        }
    }
}

/// Whether color `b` is color `a` with its letters raised to uppercase.
pub open spec fn upper_of(a: String, b: String) -> bool {
    utf8(b@) == utf8(a@).map_values(|x: u8| ascii_upper(x))
}

/// Validation does not depend on the case of the theme colors' digits: a
/// manifest whose colors are another's raised to uppercase is judged alike.
pub proof fn law_manifest_color_case_does_not_matter(m: GamePluginManifest, t: PluginTheme)
    requires
        upper_of(m.presentation.theme.background, t.background),
        upper_of(m.presentation.theme.foreground, t.foreground),
        upper_of(m.presentation.theme.accent, t.accent),
        upper_of(m.presentation.theme.warning, t.warning),
    ensures
        manifest_check(GamePluginManifest { presentation: PluginPresentation { theme: t, ..m.presentation }, ..m })
            == manifest_check(m),
{
    law_plugin_color_case_does_not_matter(utf8(m.presentation.theme.background@));
    law_plugin_color_case_does_not_matter(utf8(m.presentation.theme.foreground@));
    law_plugin_color_case_does_not_matter(utf8(m.presentation.theme.accent@));
    law_plugin_color_case_does_not_matter(utf8(m.presentation.theme.warning@));
}

/// Of a valid manifest, the RPM fallback may be any value within 500 to
/// 30000 and no other.
pub proof fn law_manifest_rpm_fallback_range(m: GamePluginManifest, rpm: u16)
    requires
        manifest_check(m) is Ok,
    ensures
        manifest_check(GamePluginManifest { presentation: PluginPresentation { fallback_rpm_max: rpm, ..m.presentation }, ..m })
            is Ok <==> 500 <= rpm <= 30000,
{
}

/// Of a valid manifest, the ingress port may be any non-zero port, and the
/// datagram limit any value within 1 to 65507 (the largest UDP payload).
pub proof fn law_manifest_ingress_ranges(m: GamePluginManifest, port: u16, max_datagram: u32)
    requires
        manifest_check(m) is Ok,
    ensures
        manifest_check(GamePluginManifest { ingress: PluginIngress { default_port: port, ..m.ingress }, ..m })
            is Ok <==> port != 0,
        manifest_check(GamePluginManifest { ingress: PluginIngress { max_datagram_bytes: max_datagram, ..m.ingress }, ..m })
            is Ok <==> 1 <= max_datagram <= 65507,
{
}

} // verus!

//! Safe slugs, and the identifiers, adapter ids, component types and widget
//! types built from them.

use vstd::prelude::*;

use crate::adapter::valid_adapter_id;
use crate::config::model::{is_lower_alnum, valid_component_type, valid_identifier};
use crate::plugin::manifest::{dotted_widget_type, lower_or_digit};

verus! {

/// Whether `b` is a lowercase ASCII letter or an ASCII digit.
pub open spec fn slug_byte(b: u8) -> bool {
    ('a' as u8 <= b && b <= 'z' as u8) || ('0' as u8 <= b && b <= '9' as u8)
}

/// Whether `s` is a safe slug: non-empty, made of lowercase letters, digits
/// and hyphens, starting and ending with a letter or digit, and never
/// holding two hyphens in a row.
pub open spec fn safe_slug(s: Seq<u8>) -> bool {
    &&& s.len() > 0
    &&& slug_byte(s[0])
    &&& slug_byte(s[s.len() - 1])
    &&& forall|i: int| 0 <= i < s.len() ==> slug_byte(#[trigger] s[i]) || s[i] == '-' as u8
    &&& forall|i: int| 1 <= i < s.len() ==> !(#[trigger] s[i] == '-' as u8 && s[i - 1] == '-' as u8)
}

/// A stable identifier is exactly a safe slug of at most 96 bytes.
pub proof fn law_identifiers_are_safe_slugs(bytes: Seq<u8>)
    ensures
        valid_identifier(bytes) <==> safe_slug(bytes) && bytes.len() <= 96,
{
}

/// A component type without a dot is exactly a safe slug of at most 96
/// bytes.
pub proof fn law_undotted_component_types_are_safe_slugs(bytes: Seq<u8>)
    requires
        forall|i: int| 0 <= i < bytes.len() ==> bytes[i] != '.' as u8,
    ensures
        valid_component_type(bytes) <==> safe_slug(bytes) && bytes.len() <= 96,
{
}

/// Joining two component types with a dot gives a component type, within
/// the length limit: each dotted segment is judged on its own.
pub proof fn law_component_types_join_with_a_dot(a: Seq<u8>, b: Seq<u8>)
    requires
        valid_component_type(a),
        valid_component_type(b),
        a.len() + 1 + b.len() <= 96,
    ensures
        valid_component_type(a + seq!['.' as u8] + b),
{
    let j = a + seq!['.' as u8] + b;
    let n = a.len() as int;
    assert forall|i: int| 0 <= i < j.len() implies is_lower_alnum(#[trigger] j[i]) || j[i] == 0x2d || j[i] == 0x2e by {
        if i > n {
            assert(j[i] == b[i - n - 1]);
        }
    }
    assert forall|i: int| 0 < i < j.len() - 1 && #[trigger] j[i] == 0x2e implies is_lower_alnum(j[i - 1]) && is_lower_alnum(j[i + 1]) by {
        if i < n {
            assert(j[i] == a[i]);
            if i + 1 == n {
                assert(j[i + 1] == 0x2e);
            }
        } else if i > n {
            assert(j[i] == b[i - n - 1]);
            assert(j[i + 1] == b[i - n]);
            if i - 1 > n {
                assert(j[i - 1] == b[i - n - 2]);
            }
        }
    }
    assert forall|i: int| 0 < i < j.len() && #[trigger] j[i] == 0x2d implies j[i - 1] != 0x2d by {
        if i < n {
            assert(j[i] == a[i]);
        } else if i > n + 1 {
            assert(j[i] == b[i - n - 1]);
            assert(j[i - 1] == b[i - n - 2]);
        } else if i == n + 1 {
            assert(j[i - 1] == 0x2e);
        }
    }
    assert(j.last() == b.last());
    assert(j[0] == a[0]);
}

/// An adapter id is exactly a safe slug of at most 64 bytes.
pub proof fn law_adapter_ids_are_safe_slugs(bytes: Seq<u8>)
    ensures
        valid_adapter_id(bytes) <==> safe_slug(bytes) && bytes.len() <= 64,
{
}

/// Two safe slugs joined with a dot form a dotted widget type.
pub proof fn law_widget_types_are_dotted_slugs(a: Seq<u8>, b: Seq<u8>)
    requires
        safe_slug(a),
        safe_slug(b),
    ensures
        dotted_widget_type(a + seq!['.' as u8] + b),
{
    let j = a + seq!['.' as u8] + b;
    let n = a.len() as int;
    assert forall|i: int| 0 <= i < j.len() implies lower_or_digit(#[trigger] j[i]) || j[i] == 0x2d || j[i] == 0x2e by {
        if i > n {
            assert(j[i] == b[i - n - 1]);
        }
    }
    assert forall|i: int| 0 < i < j.len() - 1 && #[trigger] j[i] == 0x2e implies lower_or_digit(j[i - 1]) && lower_or_digit(j[i + 1]) by {
        if i < n {
            assert(j[i] == a[i]);
        } else if i > n {
            assert(j[i] == b[i - n - 1]);
        }
    }
    assert forall|i: int| 0 < i < j.len() && #[trigger] j[i] == 0x2d implies j[i - 1] != 0x2d by {
        if i < n {
            assert(j[i] == a[i]);
        } else if i > n + 1 {
            assert(j[i] == b[i - n - 1]);
            assert(j[i - 1] == b[i - n - 2]);
        } else if i == n + 1 {
            assert(j[i - 1] == 0x2e);
        }
    }
    assert(j[n] == 0x2e);
    assert(j.last() == b.last());
    assert(j[0] == a[0]);
}

/// Bytes without a dot are never a dotted widget type.
pub proof fn law_widget_types_need_a_dot(bytes: Seq<u8>)
    requires
        forall|i: int| 0 <= i < bytes.len() ==> bytes[i] != '.' as u8,
    ensures
        !dotted_widget_type(bytes),
{
}

} // verus!

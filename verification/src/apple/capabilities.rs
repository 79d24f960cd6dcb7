//! What an Apple host can do.

use crate::codec::utf8_text;
use crate::numbers::{decimal, decimal_reads_back, parse_u32, parsed_nat};
use crate::text::{first_pieces_end_at_the_mark, pieces, same, split, trim, trimmed, views};
use vstd::prelude::*;

verus! {

#[derive(Debug, Clone, PartialEq, Eq)]
pub struct MacOsCapabilities {
    pub os: String,
    pub version: String,
    pub major_version: u32,
    pub is_apple_silicon: bool,
    pub supports_virtualization_framework: bool,
    pub supports_containerization_framework: bool,
    pub has_container_cli: bool,
    pub has_containerization_framework: bool,
}

impl MacOsCapabilities {
    pub fn preferred_backend(&self) -> (r: &'static str)
        ensures
            r@ == (if self.supports_containerization_framework {
                "apple_containerization"@
            } else if self.supports_virtualization_framework {
                "virtualization_framework"@
            } else {
                "unsupported"@
            }),
    {
        if self.supports_containerization_framework {
            "apple_containerization"
        } else if self.supports_virtualization_framework {
            "virtualization_framework"
        } else {
            "unsupported"
        }
    }
}

/// The version that a host reports, from what its program printed; `0.0.0` where that is no text
/// or blank.
pub open spec fn reported_version(output: Option<Seq<u8>>) -> Seq<char> {
    match output {
        Some(bytes) => if !vstd::utf8::valid_utf8(bytes) || trimmed(
            vstd::utf8::decode_utf8(bytes),
        ).len() == 0 {
            "0.0.0"@
        } else {
            trimmed(vstd::utf8::decode_utf8(bytes))
        },
        None => "0.0.0"@,
    }
}

/// The number before the first dot of a version; 0 where it is none.
pub open spec fn major_of(version: Seq<char>) -> u32 {
    match parsed_nat(pieces(version, '.')[0], u32::MAX as nat) {
        Ok(n) => n as u32,
        Err(_) => 0,
    }
}

/// What a host can do, from what was found out about it: its system, its architecture, the
/// version that it reports, and whether the container program and framework are there.
pub fn detect_macos_capabilities(
    os: &str,
    arch: &str,
    version_output: Option<Vec<u8>>,
    has_container_cli: bool,
    has_containerization_framework: bool,
) -> (r: MacOsCapabilities)
    ensures
        r.os@ == os@,
        r.version@ == reported_version(
            match version_output {
                Some(bytes) => Some(bytes@),
                None => None,
            },
        ),
        r.major_version == major_of(r.version@),
        r.is_apple_silicon == (arch@ == "aarch64"@),
        r.supports_virtualization_framework == (r.major_version >= 11 && r.is_apple_silicon),
        r.supports_containerization_framework == (r.major_version >= 26 && r.is_apple_silicon && (
        has_container_cli || has_containerization_framework)),
        r.has_container_cli == has_container_cli,
        r.has_containerization_framework == has_containerization_framework,
{
    let text = match version_output {
        Some(bytes) => utf8_text(bytes),
        None => None,
    };
    let version = match text {
        Some(text) => {
            let bare = trim(text.as_str());
            if bare.as_str().is_empty() {
                "0.0.0".to_owned()
            } else {
                bare
            }
        },
        None => "0.0.0".to_owned(),
    };
    let parts = split(version.as_str(), '.');
    assert(parts@[0]@ == views(parts@)[0]);
    let major_version: u32 = match parse_u32(parts[0].as_str()) {
        Ok(n) => n,
        Err(_) => 0,
    };
    let is_apple_silicon = same(arch, "aarch64");
    MacOsCapabilities {
        os: os.to_owned(),
        version,
        major_version,
        is_apple_silicon,
        supports_virtualization_framework: major_version >= 11 && is_apple_silicon,
        supports_containerization_framework: major_version >= 26 && is_apple_silicon && (
        has_container_cli || has_containerization_framework),
        has_container_cli,
        has_containerization_framework,
    }
}

proof fn numbers_have_no_dot(n: nat)
    ensures
        !decimal(n).contains('.'),
    decreases n,
{
    if n >= 10 {
        numbers_have_no_dot(n / 10);
        let init = decimal(n / 10);
        assert forall|i: int| 0 <= i < decimal(n).len() implies decimal(n)[i] != '.' by {
            if i < init.len() {
                assert(init.contains(init[i]));
            }
        }
    }
}

/// A version counts by the number before its first dot, whatever is behind it.
pub proof fn versions_count_by_their_first_number(n: u32, rest: Seq<char>)
    ensures
        major_of(decimal(n as nat)) == n,
        major_of(decimal(n as nat) + seq!['.'] + rest) == n,
{
    numbers_have_no_dot(n as nat);
    first_pieces_end_at_the_mark(decimal(n as nat), '.', rest);
    decimal_reads_back(n as nat, u32::MAX as nat);
}

} // verus!

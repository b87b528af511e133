//! Kernel load options: the fixed command line and its wide-character form.
//!
//! The firmware hands load options to the started image as a sequence of
//! 16-bit code units that ends in a zero unit, together with its length in
//! bytes.

use vstd::prelude::*;
use vstd::string::StrSliceExecFns;

verus! {

/// The command line of the booted kernel, fixed when the loader is built.
pub const KERNEL_COMMAND_LINE: &'static str =
    "init=/nix/store/pg9asbr6hx4515is7akx9ypygg28ama9-nixos-system-nixos-kexec-25.05.20251019.33c6dca/init loglevel=4 efi=debug";

/// Whether every character of `text` is one 16-bit code unit other than zero.
pub open spec fn wide_encodable(text: Seq<char>) -> bool {
    forall|i: int| 0 <= i < text.len() ==> 0 < (#[trigger] text[i]) as int <= 0xFFFF
}

/// The code units of `text`, followed by the terminating zero unit.
pub open spec fn wide_units(text: Seq<char>) -> Seq<u16> {
    Seq::new(
        text.len() + 1,
        |i: int|
            if i < text.len() {
                text[i] as u16
            } else {
                0u16
            },
    )
}

/// Encodes `text` as zero-terminated 16-bit code units, if it can be encoded.
pub fn encode_wide(text: &str) -> (units: Option<Vec<u16>>)
    ensures
        units is Some <==> wide_encodable(text@),
        units matches Some(encoded) ==> encoded@ == wide_units(text@),
{
    let count: usize = text.unicode_len();
    let mut encoded: Vec<u16> = Vec::new();
    let mut at: usize = 0;
    while at < count
        invariant
            at <= count,
            count == text@.len(),
            encoded@.len() == at,
            forall|i: int| 0 <= i < at ==> 0 < (#[trigger] text@[i]) as int <= 0xFFFF,
            forall|i: int| 0 <= i < at ==> encoded@[i] == text@[i] as u16,
        decreases count - at,
    {
        let code: u32 = text.get_char(at) as u32;
        if code == 0 || code > 0xFFFF {
            return None;
        }
        encoded.push(code as u16);
        at = at + 1;
    }
    encoded.push(0u16);
    assert(encoded@ =~= wide_units(text@));
    Some(encoded)
}

/// Load options ready to be attached to a loaded image.
pub struct LoadOptions {
    units: Vec<u16>,
}

impl View for LoadOptions {
    type V = Seq<u16>;

    closed spec fn view(&self) -> Seq<u16> {
        self.units@
    }
}

/// Whether `text` can serve as load options: it can be encoded and the byte
/// length of its encoding fits the 32-bit length the firmware takes.
pub open spec fn fits_load_options(text: Seq<char>) -> bool {
    wide_encodable(text) && 2 * (text.len() + 1) <= u32::MAX
}

impl LoadOptions {
    #[verifier::type_invariant]
    spec fn inv(self) -> bool {
        &&& self.units@.len() >= 1
        &&& 2 * self.units@.len() <= u32::MAX
        &&& self.units@.last() == 0u16
    }

    /// The load options for the command line `text`.
    pub fn for_command_line(text: &str) -> (options: Option<LoadOptions>)
        ensures
            options is Some <==> fits_load_options(text@),
            options matches Some(encoded) ==> encoded@ == wide_units(text@),
    {
        match encode_wide(text) {
            None => None,
            Some(units) => {
                if units.len() > 0x7FFF_FFFF {
                    None
                } else {
                    Some(LoadOptions { units })
                }
            },
        }
    }

    /// The load options for [`KERNEL_COMMAND_LINE`].
    pub fn fixed() -> (options: LoadOptions)
        ensures
            options@ == wide_units(KERNEL_COMMAND_LINE@),
    {
        proof {
            lemma_command_line_fits();
        }
        match LoadOptions::for_command_line(KERNEL_COMMAND_LINE) {
            Some(options) => options,
            None => unreached(),
        }
    }

    /// The code units, the terminating zero unit included.
    pub fn units(&self) -> (units: &[u16])
        ensures
            units@ == self@,
            units@.len() >= 1,
            units@.last() == 0u16,
    {
        proof {
            use_type_invariant(self);
        }
        self.units.as_slice()
    }

    /// The length in bytes of the code units, the terminating zero unit
    /// included.
    pub fn byte_len(&self) -> (len: u32)
        ensures
            len == 2 * self@.len(),
    {
        proof {
            use_type_invariant(self);
        }
        (self.units.len() * 2) as u32
    }
}

/// The fixed command line can serve as load options.
pub proof fn lemma_command_line_fits()
    ensures
        fits_load_options(KERNEL_COMMAND_LINE@),
{
    reveal_strlit("init=/nix/store/pg9asbr6hx4515is7akx9ypygg28ama9-nixos-system-nixos-kexec-25.05.20251019.33c6dca/init loglevel=4 efi=debug");
}

} // verus!

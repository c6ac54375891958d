//! The architecture configurator.
//!
//! A closed, exhaustive table from an architecture selection (family,
//! bit-width, endianness, execution mode) to the name of a specification
//! document and the configuration variables that select its sub-variant.
//! The names do not follow one uniform pattern across families, so each
//! family's spelling is written out rather than formatted.

use vstd::prelude::*;
use crate::store::spec_catalog_names;

verus! {

/// The bit-width an x86 session decodes for.
#[derive(Clone, Copy, Debug, PartialEq, Eq, Structural)]
pub enum X86Mode {
    Mode16,
    Mode32,
    Mode64,
}

/// The bit-width selector kept alongside `X86Mode` for callers that treat
/// the 64-bit family separately.
#[derive(Clone, Copy, Debug, PartialEq, Eq, Structural)]
pub enum X64Mode {
    Mode16,
    Mode32,
    Mode64,
}

/// Whether an ARM session decodes ARM or Thumb encodings.
#[derive(Clone, Copy, Debug, PartialEq, Eq, Structural)]
pub enum ArmMode {
    Arm,
    Thumb,
}

/// The ARM architecture versions the catalog covers.
#[derive(Clone, Copy, Debug, PartialEq, Eq, Structural)]
pub enum ArmVersion {
    Arm4,
    Arm4t,
    Arm5,
    Arm5t,
    Arm6,
    Arm7,
    Arm8,
}

/// Byte order of the decoded architecture.
#[derive(Clone, Copy, Debug, PartialEq, Eq, Structural)]
pub enum Endian {
    LittleEndian,
    BigEndian,
}

/// One configuration variable: a named integer the engine consumes before
/// any decode, selecting a sub-variant of the specification.
#[derive(Clone, Debug)]
pub struct ConfigVar {
    pub name: String,
    pub value: u32,
}

/// A resolved selection: the catalog name of the specification document and
/// the configuration variables to set, immutable once produced.
#[derive(Clone, Debug)]
pub struct ArchState {
    pub spec_name: String,
    pub vars: Vec<ConfigVar>,
}

/// A builder over a selection state: `DecompilerBuilder<()>` before a family
/// is chosen, `DecompilerBuilder<ArchState>` after.
pub struct DecompilerBuilder<T> {
    pub state: T,
}

/// The integer code both x86 width variables carry: 0, 1 or 2 for a 16-,
/// 32- or 64-bit selection.
pub open spec fn spec_x86_width_code(mode: X86Mode) -> u32 {
    match mode {
        X86Mode::Mode16 => 0,
        X86Mode::Mode32 => 1,
        X86Mode::Mode64 => 2,
    }
}

/// The specification name an x86 selection resolves to.
pub open spec fn spec_x86_name(mode: X86Mode) -> Seq<char> {
    match mode {
        X86Mode::Mode16 => "x86"@,
        X86Mode::Mode32 => "x86"@,
        X86Mode::Mode64 => "x86-64"@,
    }
}

/// The specification name an AArch64 selection resolves to.
pub open spec fn spec_aarch64_name(endian: Endian) -> Seq<char> {
    match endian {
        Endian::LittleEndian => "AARCH64"@,
        Endian::BigEndian => "AARCH64BE"@,
    }
}

/// The specification name an ARM selection resolves to: one spelling per
/// (version, endianness) pair.
pub open spec fn spec_arm_name(version: ArmVersion, endian: Endian) -> Seq<char> {
    match (version, endian) {
        (ArmVersion::Arm4, Endian::LittleEndian) => "ARM4_le"@,
        (ArmVersion::Arm4, Endian::BigEndian) => "ARM4_be"@,
        (ArmVersion::Arm4t, Endian::LittleEndian) => "ARM4t_le"@,
        (ArmVersion::Arm4t, Endian::BigEndian) => "ARM4t_be"@,
        (ArmVersion::Arm5, Endian::LittleEndian) => "ARM5_le"@,
        (ArmVersion::Arm5, Endian::BigEndian) => "ARM5_be"@,
        (ArmVersion::Arm5t, Endian::LittleEndian) => "ARM5t_le"@,
        (ArmVersion::Arm5t, Endian::BigEndian) => "ARM5t_be"@,
        (ArmVersion::Arm6, Endian::LittleEndian) => "ARM6_le"@,
        (ArmVersion::Arm6, Endian::BigEndian) => "ARM6_be"@,
        (ArmVersion::Arm7, Endian::LittleEndian) => "ARM7_le"@,
        (ArmVersion::Arm7, Endian::BigEndian) => "ARM7_be"@,
        (ArmVersion::Arm8, Endian::LittleEndian) => "ARM8_le"@,
        (ArmVersion::Arm8, Endian::BigEndian) => "ARM8_be"@,
    }
}

/// The value of the Thumb-mode variable: 1 under Thumb, else 0.
pub open spec fn spec_tmode(mode: ArmMode) -> u32 {
    match mode {
        ArmMode::Arm => 0,
        ArmMode::Thumb => 1,
    }
}

impl DecompilerBuilder<()> {
    /// A builder with no family chosen yet.
    pub fn new() -> (r: DecompilerBuilder<()>)
        ensures
            r.state == (),
    {
        DecompilerBuilder { state: () }
    }

    /// Select the x86 family: the 16- and 32-bit selections resolve to the
    /// `x86` specification and the 64-bit one to `x86-64`; both width
    /// variables, `addrsize` and `opsize`, carry the width code.
    pub fn x86(self, mode: X86Mode) -> (r: DecompilerBuilder<ArchState>)
        ensures
            r.state.spec_name@ == spec_x86_name(mode),
            r.state.vars@.len() == 2,
            r.state.vars@[0].name@ == "addrsize"@,
            r.state.vars@[0].value == spec_x86_width_code(mode),
            r.state.vars@[1].name@ == "opsize"@,
            r.state.vars@[1].value == spec_x86_width_code(mode),
    {
        let m: u32 = match mode {
            X86Mode::Mode16 => 0,
            X86Mode::Mode32 => 1,
            X86Mode::Mode64 => 2,
        };
        let mut vars: Vec<ConfigVar> = Vec::new();
        vars.push(ConfigVar { name: "addrsize".to_owned(), value: m });
        vars.push(ConfigVar { name: "opsize".to_owned(), value: m });
        let spec_name = match mode {
            X86Mode::Mode16 => "x86".to_owned(),
            X86Mode::Mode32 => "x86".to_owned(),
            X86Mode::Mode64 => "x86-64".to_owned(),
        };
        DecompilerBuilder { state: ArchState { spec_name, vars } }
    }

    /// Select the AArch64 family: little-endian resolves to `AARCH64`,
    /// big-endian to `AARCH64BE`; no configuration variables.
    pub fn aarch64(self, endian: Endian) -> (r: DecompilerBuilder<ArchState>)
        ensures
            r.state.spec_name@ == spec_aarch64_name(endian),
            r.state.vars@.len() == 0,
    {
        let spec_name = match endian {
            Endian::LittleEndian => "AARCH64".to_owned(),
            Endian::BigEndian => "AARCH64BE".to_owned(),
        };
        DecompilerBuilder { state: ArchState { spec_name, vars: Vec::new() } }
    }

    /// Select the ARM family: the (version, endianness) pair resolves to its
    /// own spelling, and the `TMode` variable is 1 exactly under Thumb.
    pub fn arm(self, version: ArmVersion, endian: Endian, mode: ArmMode) -> (r:
        DecompilerBuilder<ArchState>)
        ensures
            r.state.spec_name@ == spec_arm_name(version, endian),
            r.state.vars@.len() == 1,
            r.state.vars@[0].name@ == "TMode"@,
            r.state.vars@[0].value == spec_tmode(mode),
    {
        let t: u32 = match mode {
            ArmMode::Arm => 0,
            ArmMode::Thumb => 1,
        };
        let mut vars: Vec<ConfigVar> = Vec::new();
        vars.push(ConfigVar { name: "TMode".to_owned(), value: t });
        let spec_name = match (version, endian) {
            (ArmVersion::Arm4, Endian::LittleEndian) => "ARM4_le".to_owned(),
            (ArmVersion::Arm4, Endian::BigEndian) => "ARM4_be".to_owned(),
            (ArmVersion::Arm4t, Endian::LittleEndian) => "ARM4t_le".to_owned(),
            (ArmVersion::Arm4t, Endian::BigEndian) => "ARM4t_be".to_owned(),
            (ArmVersion::Arm5, Endian::LittleEndian) => "ARM5_le".to_owned(),
            (ArmVersion::Arm5, Endian::BigEndian) => "ARM5_be".to_owned(),
            (ArmVersion::Arm5t, Endian::LittleEndian) => "ARM5t_le".to_owned(),
            (ArmVersion::Arm5t, Endian::BigEndian) => "ARM5t_be".to_owned(),
            (ArmVersion::Arm6, Endian::LittleEndian) => "ARM6_le".to_owned(),
            (ArmVersion::Arm6, Endian::BigEndian) => "ARM6_be".to_owned(),
            (ArmVersion::Arm7, Endian::LittleEndian) => "ARM7_le".to_owned(),
            (ArmVersion::Arm7, Endian::BigEndian) => "ARM7_be".to_owned(),
            (ArmVersion::Arm8, Endian::LittleEndian) => "ARM8_le".to_owned(),
            (ArmVersion::Arm8, Endian::BigEndian) => "ARM8_be".to_owned(),
        };
        DecompilerBuilder { state: ArchState { spec_name, vars } }
    }

    /// Select the Dalvik family: the fixed `Dalvik` specification, no
    /// configuration variables.
    pub fn dalvik(self) -> (r: DecompilerBuilder<ArchState>)
        ensures
            r.state.spec_name@ == "Dalvik"@,
            r.state.vars@.len() == 0,
    {
        DecompilerBuilder {
            state: ArchState { spec_name: "Dalvik".to_owned(), vars: Vec::new() },
        }
    }

    /// Select the JVM family: the fixed `JVM` specification, no
    /// configuration variables.
    pub fn jvm(self) -> (r: DecompilerBuilder<ArchState>)
        ensures
            r.state.spec_name@ == "JVM"@,
            r.state.vars@.len() == 0,
    {
        DecompilerBuilder {
            state: ArchState { spec_name: "JVM".to_owned(), vars: Vec::new() },
        }
    }
}

/// The configurator's table is closed over the catalog: every specification
/// name any selection of any family can produce is a name of the fixed
/// catalog, so no supported selection fails to resolve there.
pub proof fn lemma_selection_names_in_catalog(xm: X86Mode, av: ArmVersion, e: Endian)
    ensures
        spec_catalog_names().contains(spec_x86_name(xm)),
        spec_catalog_names().contains(spec_aarch64_name(e)),
        spec_catalog_names().contains(spec_arm_name(av, e)),
        spec_catalog_names().contains("Dalvik"@),
        spec_catalog_names().contains("JVM"@),
{
    let cat = spec_catalog_names();
    match xm {
        X86Mode::Mode16 => assert(cat[107] == spec_x86_name(xm)),
        X86Mode::Mode32 => assert(cat[107] == spec_x86_name(xm)),
        X86Mode::Mode64 => assert(cat[106] == spec_x86_name(xm)),
    }
    match e {
        Endian::LittleEndian => assert(cat[12] == spec_aarch64_name(e)),
        Endian::BigEndian => assert(cat[11] == spec_aarch64_name(e)),
    }
    match (av, e) {
        (ArmVersion::Arm4, Endian::LittleEndian) => assert(cat[14] == spec_arm_name(av, e)),
        (ArmVersion::Arm4, Endian::BigEndian) => assert(cat[13] == spec_arm_name(av, e)),
        (ArmVersion::Arm4t, Endian::LittleEndian) => assert(cat[16] == spec_arm_name(av, e)),
        (ArmVersion::Arm4t, Endian::BigEndian) => assert(cat[15] == spec_arm_name(av, e)),
        (ArmVersion::Arm5, Endian::LittleEndian) => assert(cat[18] == spec_arm_name(av, e)),
        (ArmVersion::Arm5, Endian::BigEndian) => assert(cat[17] == spec_arm_name(av, e)),
        (ArmVersion::Arm5t, Endian::LittleEndian) => assert(cat[20] == spec_arm_name(av, e)),
        (ArmVersion::Arm5t, Endian::BigEndian) => assert(cat[19] == spec_arm_name(av, e)),
        (ArmVersion::Arm6, Endian::LittleEndian) => assert(cat[22] == spec_arm_name(av, e)),
        (ArmVersion::Arm6, Endian::BigEndian) => assert(cat[21] == spec_arm_name(av, e)),
        (ArmVersion::Arm7, Endian::LittleEndian) => assert(cat[24] == spec_arm_name(av, e)),
        (ArmVersion::Arm7, Endian::BigEndian) => assert(cat[23] == spec_arm_name(av, e)),
        (ArmVersion::Arm8, Endian::LittleEndian) => assert(cat[26] == spec_arm_name(av, e)),
        (ArmVersion::Arm8, Endian::BigEndian) => assert(cat[25] == spec_arm_name(av, e)),
    }
    assert(cat[36] == "Dalvik"@);
    assert(cat[47] == "JVM"@);
}

} // verus!

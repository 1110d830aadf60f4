//! The project manifest: the values an external manifest file supplies to the
//! pipeline, and their validation.

use vstd::prelude::*;

verus! {

/// File name of the project manifest, searched for by the unverified shell.
pub const MANIFEST_NAME: &'static str = "Venice.toml";

/// Lowest slot number a program may be stored in on the device.
pub const SLOT_MIN: u8 = 1;

/// Highest slot number a program may be stored in on the device.
pub const SLOT_MAX: u8 = 8;

/// A program's declared slot must lie in `[SLOT_MIN, SLOT_MAX]`.
pub open spec fn slot_in_range(slot: u8) -> bool {
    SLOT_MIN <= slot <= SLOT_MAX
}

/// Returns whether `slot` is a valid on-device storage slot (1 through 8).
pub fn validate_slot(slot: u8) -> (r: bool)
    ensures
        r == slot_in_range(slot),
{
    SLOT_MIN <= slot && slot <= SLOT_MAX
}

/// The icon shown beside the program in the device's menu. Each icon has a
/// fixed numeric code used in the icon file name.
#[derive(Debug, Clone, Copy, PartialEq, Eq, Structural)]
pub enum ProgramIcon {
    VexCodingStudio,
    CoolX,
    /// The icon the device falls back to for an unknown icon name; the
    /// default.
    QuestionMark,
    Pizza,
    Clawbot,
    Robot,
    PowerButton,
    Planets,
    Alien,
    AlienInUfo,
    CupInField,
    CupAndBall,
    Matlab,
    Pros,
    RobotMesh,
    RobotMeshCpp,
    RobotMeshBlockly,
    RobotMeshFlowol,
    RobotMeshJS,
    RobotMeshPy,
    /// This icon is duplicated several times on the device and has many
    /// file names.
    CodeFile,
    VexcodeBrackets,
    VexcodeBlocks,
    VexcodePython,
    VexcodeCpp,
}

/// The numeric code of each icon.
pub open spec fn icon_code_spec(icon: ProgramIcon) -> u16 {
    match icon {
        ProgramIcon::VexCodingStudio => 0,
        ProgramIcon::CoolX => 1,
        ProgramIcon::QuestionMark => 2,
        ProgramIcon::Pizza => 3,
        ProgramIcon::Clawbot => 10,
        ProgramIcon::Robot => 11,
        ProgramIcon::PowerButton => 12,
        ProgramIcon::Planets => 13,
        ProgramIcon::Alien => 27,
        ProgramIcon::AlienInUfo => 29,
        ProgramIcon::CupInField => 50,
        ProgramIcon::CupAndBall => 51,
        ProgramIcon::Matlab => 901,
        ProgramIcon::Pros => 902,
        ProgramIcon::RobotMesh => 903,
        ProgramIcon::RobotMeshCpp => 911,
        ProgramIcon::RobotMeshBlockly => 912,
        ProgramIcon::RobotMeshFlowol => 913,
        ProgramIcon::RobotMeshJS => 914,
        ProgramIcon::RobotMeshPy => 915,
        ProgramIcon::CodeFile => 920,
        ProgramIcon::VexcodeBrackets => 921,
        ProgramIcon::VexcodeBlocks => 922,
        ProgramIcon::VexcodePython => 925,
        ProgramIcon::VexcodeCpp => 926,
    }
}

impl ProgramIcon {
    /// Returns this icon's numeric code.
    pub fn code(&self) -> (r: u16)
        ensures
            r == icon_code_spec(*self),
    {
        match self {
            ProgramIcon::VexCodingStudio => 0,
            ProgramIcon::CoolX => 1,
            ProgramIcon::QuestionMark => 2,
            ProgramIcon::Pizza => 3,
            ProgramIcon::Clawbot => 10,
            ProgramIcon::Robot => 11,
            ProgramIcon::PowerButton => 12,
            ProgramIcon::Planets => 13,
            ProgramIcon::Alien => 27,
            ProgramIcon::AlienInUfo => 29,
            ProgramIcon::CupInField => 50,
            ProgramIcon::CupAndBall => 51,
            ProgramIcon::Matlab => 901,
            ProgramIcon::Pros => 902,
            ProgramIcon::RobotMesh => 903,
            ProgramIcon::RobotMeshCpp => 911,
            ProgramIcon::RobotMeshBlockly => 912,
            ProgramIcon::RobotMeshFlowol => 913,
            ProgramIcon::RobotMeshJS => 914,
            ProgramIcon::RobotMeshPy => 915,
            ProgramIcon::CodeFile => 920,
            ProgramIcon::VexcodeBrackets => 921,
            ProgramIcon::VexcodeBlocks => 922,
            ProgramIcon::VexcodePython => 925,
            ProgramIcon::VexcodeCpp => 926,
        }
    }
}

impl Default for ProgramIcon {
    /// The icon used when the manifest names none.
    fn default() -> (r: Self)
        ensures
            r == ProgramIcon::QuestionMark,
    {
        ProgramIcon::QuestionMark
    }
}

/// What the external manifest file supplies to the pipeline: the program's
/// name, its on-device slot, the runtime version it targets, its menu icon
/// and an optional description. The unverified shell parses the file and
/// hands this value over.
#[derive(Debug, Clone, PartialEq, Eq)]
pub struct Manifest {
    pub name: String,
    pub slot: u8,
    pub venice_version: String,
    pub icon: ProgramIcon,
    pub description: Option<String>,
}

} // verus!

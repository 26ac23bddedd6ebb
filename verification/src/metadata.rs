//! The properties of the ECC driver of a chip: the working modes of its
//! accelerator, and the configuration symbols that follow from them.

use vstd::prelude::*;
use vstd::string::*;

verus! {

/// A working mode of the ECC accelerator.
#[derive(Debug, Clone, Copy, PartialEq, Eq, Structural)]
pub enum WorkingMode {
    /// (Q_x, Q_y) = k * (P_x, P_y)
    AffinePointMultiplication,
    /// Is (P_x, P_y) on the curve?
    AffinePointVerification,
    /// Verification, then multiplication.
    AffinePointVerificationAndMultiplication,
    /// (R_x, R_y) = (P_x, P_y, 1) + (Q_x, Q_y, Q_z)
    AffinePointAddition,
    /// (Q_x, Q_y, Q_z) = k * (P_x, P_y, 1)
    JacobianPointMultiplication,
    /// Is (Q_x, Q_y, Q_z) on the curve?
    JacobianPointVerification,
    /// Verification, then multiplication in Jacobian coordinates.
    AffinePointVerificationAndJacobianPointMultiplication,
    /// P_y * k^{-1} mod p
    FiniteFieldDivision,
    /// A + B mod N
    ModularAddition,
    /// A - B mod N
    ModularSubtraction,
    /// A * B mod N
    ModularMultiplication,
    /// A / B mod N
    ModularDivision,
}

impl WorkingMode {
    /// The name of the mode, as it is written.
    pub open spec fn spec_name(self) -> Seq<char> {
        match self {
            WorkingMode::AffinePointMultiplication => "AffinePointMultiplication"@,
            WorkingMode::AffinePointVerification => "AffinePointVerification"@,
            WorkingMode::AffinePointVerificationAndMultiplication => "AffinePointVerificationAndMultiplication"@,
            WorkingMode::AffinePointAddition => "AffinePointAddition"@,
            WorkingMode::JacobianPointMultiplication => "JacobianPointMultiplication"@,
            WorkingMode::JacobianPointVerification => "JacobianPointVerification"@,
            WorkingMode::AffinePointVerificationAndJacobianPointMultiplication => "AffinePointVerificationAndJacobianPointMultiplication"@,
            WorkingMode::FiniteFieldDivision => "FiniteFieldDivision"@,
            WorkingMode::ModularAddition => "ModularAddition"@,
            WorkingMode::ModularSubtraction => "ModularSubtraction"@,
            WorkingMode::ModularMultiplication => "ModularMultiplication"@,
            WorkingMode::ModularDivision => "ModularDivision"@,
        }
    }

    /// The name of the mode, as it is written.
    pub fn name(self) -> (name: &'static str)
        ensures
            name@ == self.spec_name(),
    {
        match self {
            WorkingMode::AffinePointMultiplication => "AffinePointMultiplication",
            WorkingMode::AffinePointVerification => "AffinePointVerification",
            WorkingMode::AffinePointVerificationAndMultiplication => "AffinePointVerificationAndMultiplication",
            WorkingMode::AffinePointAddition => "AffinePointAddition",
            WorkingMode::JacobianPointMultiplication => "JacobianPointMultiplication",
            WorkingMode::JacobianPointVerification => "JacobianPointVerification",
            WorkingMode::AffinePointVerificationAndJacobianPointMultiplication => "AffinePointVerificationAndJacobianPointMultiplication",
            WorkingMode::FiniteFieldDivision => "FiniteFieldDivision",
            WorkingMode::ModularAddition => "ModularAddition",
            WorkingMode::ModularSubtraction => "ModularSubtraction",
            WorkingMode::ModularMultiplication => "ModularMultiplication",
            WorkingMode::ModularDivision => "ModularDivision",
        }
    }
}

/// A working mode with the number that selects it.
#[derive(Debug, Clone, Copy, PartialEq, Eq, Structural)]
pub struct WorkingModeEntry {
    /// The number of the mode.
    pub id: u32,
    /// The mode.
    pub mode: WorkingMode,
}

/// What an accelerator can do beyond the modes that all have.
#[derive(Debug, Clone, Copy, PartialEq, Eq, Structural)]
pub enum EccFeature {
    /// Division in the finite field.
    FiniteFieldDivision,
    /// Addition, subtraction, multiplication or division modulo the order.
    ModularArithmetic,
    /// Addition of points.
    PointAddition,
}

impl EccFeature {
    /// The name of the feature in a configuration symbol.
    pub open spec fn spec_name(self) -> Seq<char> {
        match self {
            EccFeature::FiniteFieldDivision => "finite_field_division"@,
            EccFeature::ModularArithmetic => "modular_arithmetic"@,
            EccFeature::PointAddition => "point_addition"@,
        }
    }

    /// The configuration symbol of the feature.
    pub open spec fn spec_cfg(self) -> Seq<char> {
        "ecc_has_"@ + self.spec_name()
    }

    /// The name of the feature in a configuration symbol.
    pub fn name(self) -> (name: &'static str)
        ensures
            name@ == self.spec_name(),
    {
        match self {
            EccFeature::FiniteFieldDivision => "finite_field_division",
            EccFeature::ModularArithmetic => "modular_arithmetic",
            EccFeature::PointAddition => "point_addition",
        }
    }

    /// The configuration symbol of the feature.
    pub fn cfg(self) -> (cfg: String)
        ensures
            cfg@ == self.spec_cfg(),
    {
        String::from_str("ecc_has_").concat(self.name())
    }
}

/// Whether `mode` is among `modes`.
pub open spec fn has_mode(modes: Seq<WorkingModeEntry>, mode: WorkingMode) -> bool {
    exists|i: int| 0 <= i < modes.len() && (#[trigger] modes[i]).mode == mode
}

/// Whether an accelerator with the working modes `modes` has `feature`.
pub open spec fn has_feature(modes: Seq<WorkingModeEntry>, feature: EccFeature) -> bool {
    match feature {
        EccFeature::FiniteFieldDivision => has_mode(modes, WorkingMode::FiniteFieldDivision),
        EccFeature::ModularArithmetic => has_mode(modes, WorkingMode::ModularAddition) || has_mode(
            modes,
            WorkingMode::ModularSubtraction,
        ) || has_mode(modes, WorkingMode::ModularMultiplication) || has_mode(
            modes,
            WorkingMode::ModularDivision,
        ),
        EccFeature::PointAddition => has_mode(modes, WorkingMode::AffinePointAddition),
    }
}

/// The features of an accelerator with the working modes `modes`, each
/// once: division, then modular arithmetic, then point addition.
pub open spec fn features_of(modes: Seq<WorkingModeEntry>) -> Seq<EccFeature> {
    (if has_feature(modes, EccFeature::FiniteFieldDivision) {
        seq![EccFeature::FiniteFieldDivision]
    } else {
        seq![]
    }) + (if has_feature(modes, EccFeature::ModularArithmetic) {
        seq![EccFeature::ModularArithmetic]
    } else {
        seq![]
    }) + (if has_feature(modes, EccFeature::PointAddition) {
        seq![EccFeature::PointAddition]
    } else {
        seq![]
    })
}

/// The properties of the ECC driver of a chip.
#[derive(Debug, Clone, Default)]
pub struct EccDriverProperties {
    working_modes: Vec<WorkingModeEntry>,
}

impl View for EccDriverProperties {
    type V = Seq<WorkingModeEntry>;

    closed spec fn view(&self) -> Seq<WorkingModeEntry> {
        self.working_modes@
    }
}

impl EccDriverProperties {
    /// The properties of a driver whose accelerator has the given working
    /// modes.
    pub fn new(working_modes: Vec<WorkingModeEntry>) -> (properties: Self)
        ensures
            properties@ == working_modes@,
    {
        Self { working_modes }
    }

    /// The working modes of the accelerator.
    pub fn working_modes(&self) -> (modes: &Vec<WorkingModeEntry>)
        ensures
            modes@ == self@,
    {
        &self.working_modes
    }

    /// Whether the accelerator has the working mode `mode`.
    pub fn has_mode(&self, mode: WorkingMode) -> (has: bool)
        ensures
            has == has_mode(self@, mode),
    {
        let mut i: usize = 0;
        while i < self.working_modes.len()
            invariant
                i <= self.working_modes@.len(),
                forall|j: int| 0 <= j < i ==> (#[trigger] self.working_modes@[j]).mode != mode,
            decreases self.working_modes@.len() - i,
        {
            if self.working_modes[i].mode == mode {
                return true;
            }
            i += 1;
        }
        false
    }

    /// The features of the accelerator.
    pub fn features(&self) -> (features: Vec<EccFeature>)
        ensures
            features@ == features_of(self@),
    {
        let mut features: Vec<EccFeature> = Vec::new();
        if self.has_mode(WorkingMode::FiniteFieldDivision) {
            features.push(EccFeature::FiniteFieldDivision);
        }
        if self.has_mode(WorkingMode::ModularAddition) || self.has_mode(
            WorkingMode::ModularSubtraction,
        ) || self.has_mode(WorkingMode::ModularMultiplication) || self.has_mode(
            WorkingMode::ModularDivision,
        ) {
            features.push(EccFeature::ModularArithmetic);
        }
        if self.has_mode(WorkingMode::AffinePointAddition) {
            features.push(EccFeature::PointAddition);
        }
        assert(features@ =~= features_of(self@));
        features
    }

    /// The configuration symbols that the working modes give rise to: one
    /// for each feature of the accelerator, in the order of the features.
    pub fn cfgs(&self) -> (cfgs: Option<Vec<String>>)
        ensures
            cfgs is Some,
            cfgs matches Some(v) ==> {
                &&& v@.len() == features_of(self@).len()
                &&& forall|i: int|
                    0 <= i < v@.len() ==> (#[trigger] v@[i])@ == features_of(self@)[i].spec_cfg()
            },
    {
        let features = self.features();
        let mut cfgs: Vec<String> = Vec::new();

        let mut i: usize = 0;
        while i < features.len()
            invariant
                i <= features@.len(),
                cfgs@.len() == i,
                forall|j: int| 0 <= j < i ==> (#[trigger] cfgs@[j])@ == features@[j].spec_cfg(),
            decreases features@.len() - i,
        {
            let cfg = features[i].cfg();
            cfgs.push(cfg);
            i += 1;
        }

        Some(cfgs)
    }
}

} // verus!

use vstd::prelude::*;

verus! {

/// A boolean setting of a group: its name, what it means, its default.
#[derive(Debug, PartialEq, Eq)]
pub struct BoolSetting {
    pub name: &'static str,
    pub comment: &'static str,
    pub default: bool,
}

/// A reference to a boolean setting: one of the group that is being built, by
/// its position, or one of the shared group, by its name.
#[derive(Clone, Copy, Debug, PartialEq, Eq)]
pub enum BoolRef {
    Owned(usize),
    Shared(&'static str),
}

/// A condition over boolean settings: one setting, or two conditions at once.
#[derive(Debug, PartialEq, Eq)]
pub enum PredicateNode {
    Bool(BoolRef),
    And(Box<PredicateNode>, Box<PredicateNode>),
}

#[derive(Debug, PartialEq, Eq)]
pub struct Predicate {
    pub name: &'static str,
    pub node: PredicateNode,
}

#[derive(Debug, PartialEq, Eq)]
pub struct SettingGroup {
    pub name: &'static str,
    pub bool_settings: Vec<BoolSetting>,
    pub predicates: Vec<Predicate>,
}

pub struct SettingGroupBuilder {
    pub name: &'static str,
    pub bool_settings: Vec<BoolSetting>,
    pub predicates: Vec<Predicate>,
}

pub open spec fn setting_is(setting: BoolSetting, name: &str, comment: &str, default: bool) -> bool {
    setting.name@ == name@ && setting.comment@ == comment@ && setting.default == default
}

pub open spec fn predicate_is(predicate: Predicate, name: &str, node: PredicateNode) -> bool {
    predicate.name@ == name@ && predicate.node == node
}

pub open spec fn both(left: PredicateNode, right: PredicateNode) -> PredicateNode {
    PredicateNode::And(Box::new(left), Box::new(right))
}

pub open spec fn owned(index: usize) -> PredicateNode {
    PredicateNode::Bool(BoolRef::Owned(index))
}

pub open spec fn shared_bool(name: &'static str) -> PredicateNode {
    PredicateNode::Bool(BoolRef::Shared(name))
}

impl SettingGroup {
    /// Whether the group has a boolean setting called `name`.
    pub open spec fn has_bool(self, name: Seq<char>) -> bool {
        exists|i: int| 0 <= i < self.bool_settings@.len() && (#[trigger] self.bool_settings@[i]).name@ == name
    }

    /// Tells whether the group has a boolean setting called `name`.
    pub fn contains_bool(&self, name: &str) -> (found: bool)
        ensures
            found == self.has_bool(name@),
    {
        let wanted: String = name.to_owned();
        let mut i: usize = 0;
        while i < self.bool_settings.len()
            invariant
                i <= self.bool_settings@.len(),
                wanted@ == name@,
                forall|j: int| 0 <= j < i ==> (#[trigger] self.bool_settings@[j]).name@ != name@,
            decreases self.bool_settings@.len() - i,
        {
            let candidate: String = self.bool_settings[i].name.to_owned();
            if candidate == wanted {
                return true;
            }
            i = i + 1;
        }
        false
    }

    /// A reference to the boolean setting `name` of this group, for use in a
    /// predicate of another group.
    pub fn get_bool(&self, name: &'static str) -> (setting: BoolRef)
        requires
            self.has_bool(name@),
        ensures
            setting == BoolRef::Shared(name),
    {
        BoolRef::Shared(name)
    }
}

impl SettingGroupBuilder {
    pub fn new(name: &'static str) -> (builder: SettingGroupBuilder)
        ensures
            builder.name == name,
            builder.bool_settings@.len() == 0,
            builder.predicates@.len() == 0,
    {
        SettingGroupBuilder { name, bool_settings: Vec::new(), predicates: Vec::new() }
    }

    /// Adds a boolean setting and hands back a reference to it.
    pub fn add_bool(&mut self, name: &'static str, comment: &'static str, default: bool) -> (setting:
        BoolRef)
        ensures
            final(self).name == old(self).name,
            final(self).predicates == old(self).predicates,
            final(self).bool_settings@ == old(self).bool_settings@.push(
                (BoolSetting { name, comment, default }),
            ),
            setting == BoolRef::Owned(old(self).bool_settings@.len() as usize),
    {
        let index: usize = self.bool_settings.len();
        self.bool_settings.push(BoolSetting { name, comment, default });
        BoolRef::Owned(index)
    }

    pub fn add_predicate(&mut self, name: &'static str, node: PredicateNode)
        ensures
            final(self).name == old(self).name,
            final(self).bool_settings == old(self).bool_settings,
            final(self).predicates@ == old(self).predicates@.push((Predicate { name, node })),
    {
        self.predicates.push(Predicate { name, node });
    }

    pub fn finish(self) -> (group: SettingGroup)
        ensures
            group.name == self.name,
            group.bool_settings == self.bool_settings,
            group.predicates == self.predicates,
    {
        SettingGroup {
            name: self.name,
            bool_settings: self.bool_settings,
            predicates: self.predicates,
        }
    }
}

/// The condition that one setting is on.
pub fn is_on(setting: BoolRef) -> (node: PredicateNode)
    ensures
        node == PredicateNode::Bool(setting),
{
    PredicateNode::Bool(setting)
}

/// Both conditions at once.
pub fn and(left: PredicateNode, right: PredicateNode) -> (node: PredicateNode)
    ensures
        node == both(left, right),
{
    PredicateNode::And(Box::new(left), Box::new(right))
}

#[derive(Debug, PartialEq, Eq)]
pub struct RegBank {
    pub name: &'static str,
    pub prefix: &'static str,
    pub units: u8,
    pub track_pressure: bool,
}

pub struct RegBankBuilder {
    pub name: &'static str,
    pub prefix: &'static str,
    pub units: u8,
    pub track_pressure: bool,
}

/// A register class; a top-level one spans the whole of its bank.
#[derive(Debug, PartialEq, Eq)]
pub struct RegClass {
    pub name: &'static str,
    pub bank: usize,
    pub toplevel: bool,
}

pub struct RegClassBuilder {
    pub name: &'static str,
    pub bank: usize,
}

#[derive(Debug, PartialEq, Eq)]
pub struct IsaRegs {
    pub banks: Vec<RegBank>,
    pub classes: Vec<RegClass>,
}

pub struct IsaRegsBuilder {
    pub banks: Vec<RegBank>,
    pub classes: Vec<RegClass>,
}

pub open spec fn bank_is(bank: RegBank, name: &str, prefix: &str, units: u8, track_pressure: bool) -> bool {
    bank.name@ == name@ && bank.prefix@ == prefix@ && bank.units == units && bank.track_pressure
        == track_pressure
}

pub open spec fn toplevel_class_is(class: RegClass, name: &str, bank: usize) -> bool {
    class.name@ == name@ && class.bank == bank && class.toplevel
}

impl RegBankBuilder {
    pub fn new(name: &'static str, prefix: &'static str) -> (builder: RegBankBuilder)
        ensures
            builder.name == name,
            builder.prefix == prefix,
            builder.units == 0,
            !builder.track_pressure,
    {
        RegBankBuilder { name, prefix, units: 0, track_pressure: false }
    }

    pub fn units(self, units: u8) -> (builder: RegBankBuilder)
        ensures
            builder == (RegBankBuilder { units, ..self }),
    {
        RegBankBuilder { units, ..self }
    }

    pub fn track_pressure(self, track: bool) -> (builder: RegBankBuilder)
        ensures
            builder == (RegBankBuilder { track_pressure: track, ..self }),
    {
        RegBankBuilder { track_pressure: track, ..self }
    }
}

impl RegClassBuilder {
    pub fn new_toplevel(name: &'static str, bank: usize) -> (builder: RegClassBuilder)
        ensures
            builder.name == name,
            builder.bank == bank,
    {
        RegClassBuilder { name, bank }
    }
}

impl IsaRegsBuilder {
    pub fn new() -> (builder: IsaRegsBuilder)
        ensures
            builder.banks@.len() == 0,
            builder.classes@.len() == 0,
    {
        IsaRegsBuilder { banks: Vec::new(), classes: Vec::new() }
    }

    /// Adds a bank and hands back its position.
    pub fn add_bank(&mut self, builder: RegBankBuilder) -> (index: usize)
        ensures
            index == old(self).banks@.len(),
            final(self).classes == old(self).classes,
            final(self).banks@ == old(self).banks@.push(
                (RegBank {
                    name: builder.name,
                    prefix: builder.prefix,
                    units: builder.units,
                    track_pressure: builder.track_pressure,
                }),
            ),
    {
        let index: usize = self.banks.len();
        self.banks.push(
            RegBank {
                name: builder.name,
                prefix: builder.prefix,
                units: builder.units,
                track_pressure: builder.track_pressure,
            },
        );
        index
    }

    /// Adds a top-level class over a bank that was added before, and hands
    /// back its position.
    pub fn add_class(&mut self, builder: RegClassBuilder) -> (index: usize)
        requires
            builder.bank < old(self).banks@.len(),
        ensures
            index == old(self).classes@.len(),
            final(self).banks == old(self).banks,
            final(self).classes@ == old(self).classes@.push(
                (RegClass { name: builder.name, bank: builder.bank, toplevel: true }),
            ),
    {
        let index: usize = self.classes.len();
        self.classes.push(RegClass { name: builder.name, bank: builder.bank, toplevel: true });
        index
    }

    pub fn finish(self) -> (regs: IsaRegs)
        ensures
            regs.banks == self.banks,
            regs.classes == self.classes,
    {
        IsaRegs { banks: self.banks, classes: self.classes }
    }
}

#[derive(Debug, PartialEq, Eq)]
pub struct InstructionGroup {
    pub name: &'static str,
    pub doc: &'static str,
}

impl InstructionGroup {
    pub fn new(name: &'static str, doc: &'static str) -> (group: InstructionGroup)
        ensures
            group.name == name,
            group.doc == doc,
    {
        InstructionGroup { name, doc }
    }
}

#[derive(Debug, PartialEq, Eq)]
pub struct TargetIsa {
    pub name: &'static str,
    pub instructions: InstructionGroup,
    pub settings: SettingGroup,
    pub regs: IsaRegs,
}

impl TargetIsa {
    pub fn new(
        name: &'static str,
        instructions: InstructionGroup,
        settings: SettingGroup,
        regs: IsaRegs,
    ) -> (isa: TargetIsa)
        ensures
            isa.name == name,
            isa.instructions == instructions,
            isa.settings == settings,
            isa.regs == regs,
    {
        TargetIsa { name, instructions, settings, regs }
    }
}

/// The definitions that every target shares.
#[derive(Debug, PartialEq, Eq)]
pub struct SharedDefinitions {
    pub settings: SettingGroup,
}

/// The shared settings that the RISC-V predicates refer to.
pub open spec fn shared_settings_suffice(shared: SettingGroup) -> bool {
    shared.has_bool("enable_atomics"@) && shared.has_bool("enable_float"@) && shared.has_bool(
        "enable_simd"@,
    )
}

/// Tells whether `shared` has every setting that the RISC-V predicates refer
/// to.
pub fn shared_settings_present(shared: &SettingGroup) -> (present: bool)
    ensures
        present == shared_settings_suffice(*shared),
{
    shared.contains_bool("enable_atomics") && shared.contains_bool("enable_float")
        && shared.contains_bool("enable_simd")
}

/// The RISC-V settings: which extensions the processor has, which of them may
/// be used, and the predicates that combine the two.
pub open spec fn is_riscv_settings(group: SettingGroup) -> bool {
    let s = group.bool_settings@;
    let p = group.predicates@;
    &&& group.name@ == "riscv"@
    &&& s.len() == 6
    &&& setting_is(s[0], "supports_m", "CPU supports the 'M' extension (mul/div)", false)
    &&& setting_is(s[1], "supports_a", "CPU supports the 'A' extension (atomics)", false)
    &&& setting_is(s[2], "supports_f", "CPU supports the 'F' extension (float)", false)
    &&& setting_is(s[3], "supports_d", "CPU supports the 'D' extension (double)", false)
    &&& setting_is(s[4], "enable_m", "Enable the use of 'M' instructions if available", true)
    &&& setting_is(
        s[5],
        "enable_e",
        "Enable the 'RV32E' instruction set with only 16 registers",
        true,
    )
    &&& p.len() == 5
    &&& predicate_is(p[0], "use_m", both(owned(0), owned(4)))
    &&& predicate_is(
        p[1],
        "use_a",
        both(owned(1), shared_bool("enable_atomics")),
    )
    &&& predicate_is(
        p[2],
        "use_f",
        both(owned(2), shared_bool("enable_float")),
    )
    &&& predicate_is(
        p[3],
        "use_d",
        both(owned(3), shared_bool("enable_float")),
    )
    &&& predicate_is(
        p[4],
        "full_float",
        both(
            shared_bool("enable_simd"),
            both(owned(2), owned(3)),
        ),
    )
}

/// The RISC-V registers: 32 integer and 32 float registers, each bank with
/// pressure tracking and one top-level class.
pub open spec fn is_riscv_registers(regs: IsaRegs) -> bool {
    &&& regs.banks@.len() == 2
    &&& bank_is(regs.banks@[0], "IntRegs", "x", 32, true)
    &&& bank_is(regs.banks@[1], "FloatRegs", "f", 32, true)
    &&& regs.classes@.len() == 2
    &&& toplevel_class_is(regs.classes@[0], "GPR", 0)
    &&& toplevel_class_is(regs.classes@[1], "FPR", 1)
}

pub fn define_settings(shared: &SettingGroup) -> (group: SettingGroup)
    requires
        shared_settings_suffice(*shared),
    ensures
        is_riscv_settings(group),
{
    let mut setting = SettingGroupBuilder::new("riscv");

    let supports_m = setting.add_bool(
        "supports_m",
        "CPU supports the 'M' extension (mul/div)",
        false,
    );
    let supports_a = setting.add_bool(
        "supports_a",
        "CPU supports the 'A' extension (atomics)",
        false,
    );
    let supports_f = setting.add_bool(
        "supports_f",
        "CPU supports the 'F' extension (float)",
        false,
    );
    let supports_d = setting.add_bool(
        "supports_d",
        "CPU supports the 'D' extension (double)",
        false,
    );
    let enable_m = setting.add_bool(
        "enable_m",
        "Enable the use of 'M' instructions if available",
        true,
    );
    setting.add_bool(
        "enable_e",
        "Enable the 'RV32E' instruction set with only 16 registers",
        true,
    );

    let shared_enable_atomics = shared.get_bool("enable_atomics");
    let shared_enable_float = shared.get_bool("enable_float");
    let shared_enable_simd = shared.get_bool("enable_simd");

    setting.add_predicate("use_m", and(is_on(supports_m), is_on(enable_m)));
    setting.add_predicate("use_a", and(is_on(supports_a), is_on(shared_enable_atomics)));
    setting.add_predicate("use_f", and(is_on(supports_f), is_on(shared_enable_float)));
    setting.add_predicate("use_d", and(is_on(supports_d), is_on(shared_enable_float)));
    setting.add_predicate(
        "full_float",
        and(is_on(shared_enable_simd), and(is_on(supports_f), is_on(supports_d))),
    );

    setting.finish()
}

pub fn define_registers() -> (regs: IsaRegs)
    ensures
        is_riscv_registers(regs),
{
    let mut regs = IsaRegsBuilder::new();

    let builder = RegBankBuilder::new("IntRegs", "x").units(32).track_pressure(true);
    let int_regs: usize = regs.add_bank(builder);

    let builder = RegBankBuilder::new("FloatRegs", "f").units(32).track_pressure(true);
    let float_regs: usize = regs.add_bank(builder);

    let builder = RegClassBuilder::new_toplevel("GPR", int_regs);
    regs.add_class(builder);

    let builder = RegClassBuilder::new_toplevel("FPR", float_regs);
    regs.add_class(builder);

    regs.finish()
}

/// Describes the RISC-V target over the shared definitions, which are left as
/// they were.
pub fn define(shared_defs: &mut SharedDefinitions) -> (isa: TargetIsa)
    requires
        shared_settings_suffice(old(shared_defs).settings),
    ensures
        *final(shared_defs) == *old(shared_defs),
        isa.name@ == "riscv"@,
        isa.instructions.name@ == "riscv"@,
        isa.instructions.doc@ == "riscv specific instruction set"@,
        is_riscv_settings(isa.settings),
        is_riscv_registers(isa.regs),
{
    let settings = define_settings(&shared_defs.settings);
    let regs = define_registers();

    let inst_group = InstructionGroup::new("riscv", "riscv specific instruction set");

    TargetIsa::new("riscv", inst_group, settings, regs)
}

} // verus!

//! A builder that collects the five options of a `Configuration` in any order
//! and finalizes only once all of them are set.
use vstd::prelude::*;

use crate::configuration::{
    Configuration, ConfigurationModel, Debugging, Filename, Profile, Source, StackSize,
};

verus! {

/// One of the five options of a configuration.
#[derive(Clone, Copy, Debug, PartialEq, Eq, Structural)]
pub enum Field {
    Profile,
    Debugging,
    StackSize,
    Source,
    Filename,
}

/// The call of one setter of the builder, with the value it sets.
pub enum Setting {
    Profile(Profile),
    Debugging(Debugging),
    StackSize(StackSize),
    Source(Seq<char>),
    Filename(Option<Seq<char>>),
}

impl Setting {
    /// The option this setting sets.
    pub open spec fn field(self) -> Field {
        match self {
            Setting::Profile(_) => Field::Profile,
            Setting::Debugging(_) => Field::Debugging,
            Setting::StackSize(_) => Field::StackSize,
            Setting::Source(_) => Field::Source,
            Setting::Filename(_) => Field::Filename,
        }
    }
}

/// What a `ConfigurationBuilder` holds: each option, if it has been set.
pub struct BuilderModel {
    pub profile: Option<Profile>,
    pub debugging: Option<Debugging>,
    pub stack_size: Option<StackSize>,
    pub source: Option<Seq<char>>,
    pub filename: Option<Option<Seq<char>>>,
}

impl BuilderModel {
    /// No option set.
    pub open spec fn empty() -> BuilderModel {
        BuilderModel {
            profile: None,
            debugging: None,
            stack_size: None,
            source: None,
            filename: None,
        }
    }

    /// This state after one setter call: the option it names takes its
    /// value, whatever it held before; the others stay.
    pub open spec fn with(self, s: Setting) -> BuilderModel {
        match s {
            Setting::Profile(p) => BuilderModel { profile: Some(p), ..self },
            Setting::Debugging(d) => BuilderModel { debugging: Some(d), ..self },
            Setting::StackSize(z) => BuilderModel { stack_size: Some(z), ..self },
            Setting::Source(t) => BuilderModel { source: Some(t), ..self },
            Setting::Filename(n) => BuilderModel { filename: Some(n), ..self },
        }
    }

    /// This state after the setter calls of `calls`, first to last.
    pub open spec fn with_all(self, calls: Seq<Setting>) -> BuilderModel
        decreases calls.len(),
    {
        if calls.len() == 0 {
            self
        } else {
            self.with_all(calls.drop_last()).with(calls.last())
        }
    }

    /// The value of option `f`, as the setter call that gave it, if set.
    pub open spec fn get(self, f: Field) -> Option<Setting> {
        match f {
            Field::Profile => match self.profile {
                Some(p) => Some(Setting::Profile(p)),
                None => None,
            },
            Field::Debugging => match self.debugging {
                Some(d) => Some(Setting::Debugging(d)),
                None => None,
            },
            Field::StackSize => match self.stack_size {
                Some(z) => Some(Setting::StackSize(z)),
                None => None,
            },
            Field::Source => match self.source {
                Some(t) => Some(Setting::Source(t)),
                None => None,
            },
            Field::Filename => match self.filename {
                Some(n) => Some(Setting::Filename(n)),
                None => None,
            },
        }
    }

    /// All five options are set.
    pub open spec fn is_complete(self) -> bool {
        &&& self.profile is Some
        &&& self.debugging is Some
        &&& self.stack_size is Some
        &&& self.source is Some
        &&& self.filename is Some
    }

    /// `f` alone if it is not set, else nothing.
    pub open spec fn unset(self, f: Field) -> Seq<Field> {
        if self.get(f) is None {
            seq![f]
        } else {
            seq![]
        }
    }

    /// The options that are not set, in declaration order.
    pub open spec fn missing(self) -> Seq<Field> {
        self.unset(Field::Profile) + self.unset(Field::Debugging) + self.unset(Field::StackSize)
            + self.unset(Field::Source) + self.unset(Field::Filename)
    }

    /// The configuration of a complete state.
    pub open spec fn configuration(self) -> ConfigurationModel
        recommends
            self.is_complete(),
    {
        ConfigurationModel {
            profile: self.profile->Some_0,
            debugging: self.debugging->Some_0,
            stack_size: self.stack_size->Some_0,
            source: self.source->Some_0,
            filename: self.filename->Some_0,
        }
    }
}

impl ConfigurationModel {
    /// The value of option `f`, as the setter call that gives it.
    pub open spec fn setting(self, f: Field) -> Setting {
        match f {
            Field::Profile => Setting::Profile(self.profile),
            Field::Debugging => Setting::Debugging(self.debugging),
            Field::StackSize => Setting::StackSize(self.stack_size),
            Field::Source => Setting::Source(self.source),
            Field::Filename => Setting::Filename(self.filename),
        }
    }

    /// The five setter calls that give this configuration, in declaration order.
    pub open spec fn settings(self) -> Seq<Setting> {
        seq![
            self.setting(Field::Profile),
            self.setting(Field::Debugging),
            self.setting(Field::StackSize),
            self.setting(Field::Source),
            self.setting(Field::Filename),
        ]
    }
}

/// The error of finalizing a builder on which some options were never set.
#[derive(Clone, Debug)]
pub struct MissingField {
    /// The options that are not set, in declaration order.
    pub fields: Vec<Field>,
}

/// Collects the five options of a `Configuration`. Each setter consumes the
/// builder and returns it with that option set; `build` checks that all five
/// are there.
#[derive(Clone, Debug)]
pub struct ConfigurationBuilder {
    profile: Option<Profile>,
    debugging: Option<Debugging>,
    stack_size: Option<StackSize>,
    source: Option<Source>,
    filename: Option<Filename>,
}

impl View for ConfigurationBuilder {
    type V = BuilderModel;

    closed spec fn view(&self) -> BuilderModel {
        BuilderModel {
            profile: self.profile,
            debugging: self.debugging,
            stack_size: self.stack_size,
            source: match self.source {
                Some(t) => Some(t@),
                None => None,
            },
            filename: match self.filename {
                Some(n) => Some(n@),
                None => None,
            },
        }
    }
}

impl ConfigurationBuilder {
    /// A builder with no option set.
    #[must_use]
    pub fn init() -> (r: Self)
        ensures
            r@ == BuilderModel::empty(),
    {
        ConfigurationBuilder {
            profile: None,
            debugging: None,
            stack_size: None,
            source: None,
            filename: None,
        }
    }

    /// Sets the optimization level.
    #[must_use]
    pub fn profile(self, profile: Profile) -> (r: Self)
        ensures
            r@ == self@.with(Setting::Profile(profile)),
    {
        ConfigurationBuilder { profile: Some(profile), ..self }
    }

    /// Sets whether debug information is emitted.
    #[must_use]
    pub fn debugging(self, debugging: Debugging) -> (r: Self)
        ensures
            r@ == self@.with(Setting::Debugging(debugging)),
    {
        ConfigurationBuilder { debugging: Some(debugging), ..self }
    }

    /// Sets the stack size.
    #[must_use]
    pub fn stack_size(self, stack_size: StackSize) -> (r: Self)
        ensures
            r@ == self@.with(Setting::StackSize(stack_size)),
    {
        ConfigurationBuilder { stack_size: Some(stack_size), ..self }
    }

    /// Sets the source text.
    #[must_use]
    pub fn source(self, source: Source) -> (r: Self)
        ensures
            r@ == self@.with(Setting::Source(source@)),
    {
        ConfigurationBuilder { source: Some(source), ..self }
    }

    /// Sets the name of the source file.
    #[must_use]
    pub fn filename(self, filename: Filename) -> (r: Self)
        ensures
            r@ == self@.with(Setting::Filename(filename@)),
    {
        ConfigurationBuilder { filename: Some(filename), ..self }
    }

    /// The configuration of the five options, or the list of those not set.
    pub fn build(self) -> (r: Result<Configuration, MissingField>)
        ensures
            match r {
                Ok(c) => self@.is_complete() && c@ == self@.configuration(),
                Err(e) => !self@.is_complete() && e.fields@ == self@.missing(),
            },
    {
        let ghost model = self@;
        let ConfigurationBuilder { profile, debugging, stack_size, source, filename } = self;
        let mut missing: Vec<Field> = Vec::new();
        if profile.is_none() {
            missing.push(Field::Profile);
        }
        if debugging.is_none() {
            missing.push(Field::Debugging);
        }
        if stack_size.is_none() {
            missing.push(Field::StackSize);
        }
        if source.is_none() {
            missing.push(Field::Source);
        }
        if filename.is_none() {
            missing.push(Field::Filename);
        }
        assert(missing@ =~= model.missing());
        match (profile, debugging, stack_size, source, filename) {
            (Some(p), Some(d), Some(z), Some(t), Some(n)) => Ok(Configuration::new(p, d, z, t, n)),
            _ => Err(MissingField { fields: missing }),
        }
    }
}

/// One setter call sets the option it names and leaves the others as they were.
pub proof fn lemma_with_get(b: BuilderModel, s: Setting, f: Field)
    ensures
        b.with(s).get(f) == (if s.field() == f { Some(s) } else { b.get(f) }),
{
}

/// Setting an option twice keeps the second value only: the state is that of
/// the second call alone, and a configuration finalized from it holds the
/// second value.
pub proof fn lemma_last_write_wins(b: BuilderModel, first: Setting, second: Setting)
    requires
        first.field() == second.field(),
    ensures
        b.with(first).with(second) == b.with(second),
        b.with(first).with(second).get(second.field()) == Some(second),
        b.with(first).with(second).is_complete() ==> b.with(first).with(second).configuration().setting(
            second.field(),
        ) == second,
{
    lemma_with_get(b.with(first).with(second), second, second.field());
}

/// After a run of setter calls, an option holds the value of a call of the
/// run that sets it, when every such call carries that same value.
proof fn lemma_with_all_get(b: BuilderModel, calls: Seq<Setting>, s: Setting)
    requires
        calls.contains(s),
        forall|i: int| 0 <= i < calls.len() && calls[i].field() == s.field() ==> calls[i] == s,
    ensures
        b.with_all(calls).get(s.field()) == Some(s),
    decreases calls.len(),
{
    let last = calls.last();
    lemma_with_get(b.with_all(calls.drop_last()), last, s.field());
    if last != s {
        let i = choose|i: int| 0 <= i < calls.len() && calls[i] == s;
        assert(i != calls.len() - 1);
        assert(calls.drop_last()[i] == s);
        lemma_with_all_get(b, calls.drop_last(), s);
    }
}

/// The five setter calls of a configuration, made from an empty builder in
/// any order, give a complete builder that finalizes to that configuration.
pub proof fn lemma_order_independent(calls: Seq<Setting>, c: ConfigurationModel)
    requires
        calls.to_multiset() == c.settings().to_multiset(),
    ensures
        BuilderModel::empty().with_all(calls).is_complete(),
        BuilderModel::empty().with_all(calls).configuration() == c,
{
    let all = c.settings();
    calls.to_multiset_ensures();
    all.to_multiset_ensures();
    assert forall|x: Setting| calls.contains(x) <==> all.contains(x) by {
        assert(calls.to_multiset().count(x) == all.to_multiset().count(x));
    }
    assert forall|k: int| 0 <= k < 5 implies
        forall|i: int| 0 <= i < calls.len() && calls[i].field() == #[trigger] all[k].field() ==> calls[i] == all[k]
    by {
        assert forall|i: int| 0 <= i < calls.len() && calls[i].field() == all[k].field() implies calls[i] == all[k] by {
            assert(calls.contains(calls[i]));
            let j = choose|j: int| 0 <= j < all.len() && all[j] == calls[i];
            assert(all[j].field() == all[k].field());
        }
    }
    assert(all.contains(all[0]) && all.contains(all[1]) && all.contains(all[2]));
    assert(all.contains(all[3]) && all.contains(all[4]));
    lemma_with_all_get(BuilderModel::empty(), calls, all[0]);
    lemma_with_all_get(BuilderModel::empty(), calls, all[1]);
    lemma_with_all_get(BuilderModel::empty(), calls, all[2]);
    lemma_with_all_get(BuilderModel::empty(), calls, all[3]);
    lemma_with_all_get(BuilderModel::empty(), calls, all[4]);
}

/// Finalizing fails exactly when an option is unset, and then names exactly
/// the unset options, each once.
pub proof fn lemma_finalize_gate(b: BuilderModel)
    ensures
        b.is_complete() <==> b.missing().len() == 0,
        forall|f: Field| b.missing().contains(f) <==> b.get(f) is None,
        b.missing().no_duplicates(),
{
    broadcast use vstd::seq_lib::lemma_seq_concat_contains_all_elements;

    let p1 = b.unset(Field::Profile);
    let p2 = b.unset(Field::Debugging);
    let p3 = b.unset(Field::StackSize);
    let p4 = b.unset(Field::Source);
    let p5 = b.unset(Field::Filename);
    assert forall|f: Field, g: Field| #[trigger] b.unset(f).contains(g) <==> (f == g && b.get(f) is None) by {
        if b.get(f) is None {
            assert(b.unset(f)[0] == f);
        }
    }
    assert forall|f: Field| b.missing().contains(f) <==> b.get(f) is None by {
        assert(b.unset(f).contains(f) <==> b.get(f) is None);
    }
    vstd::seq_lib::lemma_no_dup_in_concat(p1, p2);
    vstd::seq_lib::lemma_no_dup_in_concat(p1 + p2, p3);
    vstd::seq_lib::lemma_no_dup_in_concat(p1 + p2 + p3, p4);
    vstd::seq_lib::lemma_no_dup_in_concat(p1 + p2 + p3 + p4, p5);
}

} // verus!

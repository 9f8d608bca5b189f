//! A command parameter: one entry of a command's argument schema.

use vstd::prelude::*;
use vstd::string::*;

use crate::error::{Error, ErrorModel};
use crate::text::opt_view;

verus! {

/// One allowed value of a parameter, with its optional help text.
pub type AllowedValueModel = (Seq<char>, Option<Seq<char>>);

/// Command parameter: name, required/optional flag, optional default,
/// optional help text, optional finite set of allowed values, and an
/// optional short flag letter.
#[derive(Debug, Clone)]
pub struct Parameter {
    pub name: String,
    pub required: bool,
    pub default: Option<String>,
    pub help_summary: Option<String>,
    pub allowed_values: Vec<(String, Option<String>)>,
    pub short: Option<char>,
}

/// The mathematical shape of a [`Parameter`].
pub struct ParameterModel {
    pub name: Seq<char>,
    pub required: bool,
    pub default: Option<Seq<char>>,
    pub help_summary: Option<Seq<char>>,
    pub allowed_values: Seq<AllowedValueModel>,
    pub short: Option<char>,
}

impl View for Parameter {
    type V = ParameterModel;

    open spec fn view(&self) -> ParameterModel {
        ParameterModel {
            name: self.name@,
            required: self.required,
            default: opt_view(self.default),
            help_summary: opt_view(self.help_summary),
            allowed_values: self.allowed_values@.map_values(
                |av: (String, Option<String>)| (av.0@, opt_view(av.1)),
            ),
            short: self.short,
        }
    }
}

impl ParameterModel {
    /// The keys of the allowed-value set are unique.
    pub open spec fn wf(&self) -> bool {
        forall|i: int, j: int|
            #![trigger self.allowed_values[i], self.allowed_values[j]]
            0 <= i < j < self.allowed_values.len() ==> self.allowed_values[i].0
                != self.allowed_values[j].0
    }
}

/// Replacing-insert into an allowed-value sequence: a present key keeps its
/// position and takes the new help text; an absent key is appended.
pub open spec fn insert_allowed(
    s: Seq<AllowedValueModel>,
    key: Seq<char>,
    help: Option<Seq<char>>,
) -> Seq<AllowedValueModel>
    decreases s.len(),
{
    if s.len() == 0 {
        seq![(key, help)]
    } else if s[0].0 == key {
        seq![(key, help)] + s.drop_first()
    } else {
        seq![s[0]] + insert_allowed(s.drop_first(), key, help)
    }
}

/// When the key is already present at `i` (and nowhere earlier), the insert
/// is an update in place.
proof fn lemma_insert_allowed_found(
    s: Seq<AllowedValueModel>,
    key: Seq<char>,
    help: Option<Seq<char>>,
    i: int,
)
    requires
        0 <= i < s.len(),
        s[i].0 == key,
        forall|j: int| 0 <= j < i ==> (#[trigger] s[j]).0 != key,
    ensures
        insert_allowed(s, key, help) == s.update(i, (key, help)),
    decreases i,
{
    if i == 0 {
        assert(insert_allowed(s, key, help) =~= s.update(0, (key, help)));
    } else {
        lemma_insert_allowed_found(s.drop_first(), key, help, i - 1);
        assert(insert_allowed(s, key, help) =~= s.update(i, (key, help)));
    }
}

/// When the key is absent, the insert is an append.
proof fn lemma_insert_allowed_absent(
    s: Seq<AllowedValueModel>,
    key: Seq<char>,
    help: Option<Seq<char>>,
)
    requires
        forall|j: int| 0 <= j < s.len() ==> (#[trigger] s[j]).0 != key,
    ensures
        insert_allowed(s, key, help) == s.push((key, help)),
    decreases s.len(),
{
    if s.len() == 0 {
        assert(insert_allowed(s, key, help) =~= s.push((key, help)));
    } else {
        lemma_insert_allowed_absent(s.drop_first(), key, help);
        assert(insert_allowed(s, key, help) =~= s.push((key, help)));
    }
}

impl Parameter {
    /// Create a new optional command parameter with the given name.
    pub fn new(name: &str) -> (r: Self)
        ensures
            r@ == (ParameterModel {
                name: name@,
                required: false,
                default: None,
                help_summary: None,
                allowed_values: Seq::empty(),
                short: None,
            }),
            r@.wf(),
    {
        let r = Self {
            name: name.to_owned(),
            required: false,
            default: None,
            help_summary: None,
            allowed_values: Vec::new(),
            short: None,
        };
        proof {
            assert(r@.allowed_values =~= Seq::<AllowedValueModel>::empty());
        }
        r
    }

    /// Set whether the parameter is required; a parameter that already has a
    /// default cannot be made required.
    pub fn set_required(self, required: bool) -> (r: Result<Self, Error>)
        ensures
            self@.default is Some ==> (r matches Err(e) && e@ == ErrorModel::IllegalRequiredError(
                self@.name,
            )),
            self@.default is None ==> (r matches Ok(p) && p@ == (ParameterModel {
                required: required,
                ..self@
            }) && (self@.wf() ==> p@.wf())),
    {
        if self.default.is_some() {
            return Err(Error::IllegalRequiredError(self.name));
        }
        Ok(Self { required, ..self })
    }

    /// Sets the help summary.
    pub fn with_help(self, help_summary: &str) -> (r: Self)
        ensures
            r@ == (ParameterModel { help_summary: Some(help_summary@), ..self@ }),
            self@.wf() ==> r@.wf(),
    {
        Self { help_summary: Some(help_summary.to_owned()), ..self }
    }

    /// Expose the parameter as a short flag (`-x`) under the given letter,
    /// for the completion engine.
    pub fn with_short(self, short: char) -> (r: Self)
        ensures
            r@ == (ParameterModel { short: Some(short), ..self@ }),
            self@.wf() ==> r@.wf(),
    {
        Self { short: Some(short), ..self }
    }

    /// Add an allowed value the parameter may take, with optional help text.
    /// Adding a value that is already allowed replaces its help text.
    pub fn add_allowed_value(self, allowed_value: &str, help_summary: Option<&str>) -> (r: Self)
        ensures
            r@ == (ParameterModel {
                allowed_values: insert_allowed(
                    self@.allowed_values,
                    allowed_value@,
                    match help_summary {
                        Some(h) => Some(h@),
                        None => None,
                    },
                ),
                ..self@
            }),
            self@.wf() ==> r@.wf(),
    {
        let ghost old_model = self@;
        let ghost help_model: Option<Seq<char>> = match help_summary {
            Some(h) => Some(h@),
            None => None,
        };
        let mut this = self;
        let entry = (
            allowed_value.to_owned(),
            match help_summary {
                Some(h) => Some(h.to_owned()),
                None => None,
            },
        );
        let n = this.allowed_values.len();
        for i in 0..n
            invariant
                n == this.allowed_values.len(),
                this@ == old_model,
                old_model == self@,
                help_model == (match help_summary {
                    Some(h) => Some(h@),
                    None => None,
                }),
                entry.0@ == allowed_value@,
                opt_view(entry.1) == help_model,
                forall|j: int|
                    0 <= j < i ==> (#[trigger] old_model.allowed_values[j]).0 != allowed_value@,
        {
            proof {
                assert(old_model.allowed_values[i as int] == (
                    this.allowed_values@[i as int].0@,
                    opt_view(this.allowed_values@[i as int].1),
                ));
            }
            if crate::text::str_eq(this.allowed_values[i].0.as_str(), allowed_value) {
                let ghost pre = this.allowed_values@;
                this.allowed_values.remove(i);
                this.allowed_values.insert(i, entry);
                proof {
                    assert(this.allowed_values@ =~= pre.update(i as int, entry));
                    assert(this@.allowed_values =~= old_model.allowed_values.update(
                        i as int,
                        (allowed_value@, help_model),
                    ));
                    lemma_insert_allowed_found(
                        old_model.allowed_values,
                        allowed_value@,
                        help_model,
                        i as int,
                    );
                    lemma_wf_update(old_model, allowed_value@, help_model, i as int);
                }
                return this;
            }
        }
        let ghost pre = this.allowed_values@;
        this.allowed_values.push(entry);
        proof {
            assert(this@.allowed_values =~= old_model.allowed_values.push(
                (allowed_value@, help_model),
            ));
            lemma_insert_allowed_absent(old_model.allowed_values, allowed_value@, help_model);
            lemma_wf_push(old_model, allowed_value@, help_model);
        }
        this
    }

    /// An element-wise copy of the parameter.
    pub fn duplicate(&self) -> (r: Self)
        ensures
            r@ == self@,
    {
        let mut avs: Vec<(String, Option<String>)> = Vec::new();
        let n = self.allowed_values.len();
        proof {
            assert(avs@.map_values(|av: (String, Option<String>)| (av.0@, opt_view(av.1)))
                =~= self@.allowed_values.take(0));
        }
        for i in 0..n
            invariant
                n == self.allowed_values.len(),
                avs@.map_values(|av: (String, Option<String>)| (av.0@, opt_view(av.1)))
                    == self@.allowed_values.take(i as int),
        {
            let entry = (
                self.allowed_values[i].0.clone(),
                match &self.allowed_values[i].1 {
                    Some(h) => Some(h.clone()),
                    None => None,
                },
            );
            avs.push(entry);
            proof {
                assert(self@.allowed_values.take(i + 1) =~= self@.allowed_values.take(
                    i as int,
                ).push(self@.allowed_values[i as int]));
                assert(avs@.map_values(|av: (String, Option<String>)| (av.0@, opt_view(av.1)))
                    =~= self@.allowed_values.take(i as int).push(
                    self@.allowed_values[i as int],
                ));
            }
        }
        let r = Self {
            name: self.name.clone(),
            required: self.required,
            default: match &self.default {
                Some(d) => Some(d.clone()),
                None => None,
            },
            help_summary: match &self.help_summary {
                Some(h) => Some(h.clone()),
                None => None,
            },
            allowed_values: avs,
            short: self.short,
        };
        proof {
            assert(self@.allowed_values.take(n as int) =~= self@.allowed_values);
        }
        r
    }

    /// Set a default for an optional parameter; a required parameter cannot
    /// have a default.
    pub fn set_default(self, default: &str) -> (r: Result<Self, Error>)
        ensures
            self@.required ==> (r matches Err(e) && e@ == ErrorModel::IllegalDefaultError(
                self@.name,
            )),
            !self@.required ==> (r matches Ok(p) && p@ == (ParameterModel {
                default: Some(default@),
                ..self@
            }) && (self@.wf() ==> p@.wf())),
    {
        if self.required {
            return Err(Error::IllegalDefaultError(self.name));
        }
        Ok(Self { default: Some(default.to_owned()), ..self })
    }
}

/// Updating the help text of a present key keeps the keys unique.
proof fn lemma_wf_update(m: ParameterModel, key: Seq<char>, help: Option<Seq<char>>, i: int)
    requires
        0 <= i < m.allowed_values.len(),
        m.allowed_values[i].0 == key,
    ensures
        m.wf() ==> (ParameterModel {
            allowed_values: m.allowed_values.update(i, (key, help)),
            ..m
        }).wf(),
{
}

/// Appending an absent key keeps the keys unique.
proof fn lemma_wf_push(m: ParameterModel, key: Seq<char>, help: Option<Seq<char>>)
    requires
        forall|j: int| 0 <= j < m.allowed_values.len() ==> (#[trigger] m.allowed_values[j]).0
            != key,
    ensures
        m.wf() ==> (ParameterModel { allowed_values: m.allowed_values.push((key, help)), ..m }).wf(),
{
}

} // verus!

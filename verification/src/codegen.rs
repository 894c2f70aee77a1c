//! Decisions of the schema/code-generation step for one declared
//! configuration type: which setting carries the `extends` chain (at
//! most one may), what the type's public name and casing format are,
//! and which serialization directives its partial counterpart gets.

use vstd::prelude::*;

verus! {

/// Serialization arguments picked up from the type's own attributes.
#[derive(Debug, PartialEq, Eq, Default)]
pub struct SerdeArgs {
    pub rename: Option<String>,
    pub rename_all: Option<String>,
}

/// Arguments of the configuration declaration itself.
#[derive(Debug, PartialEq, Eq, Default)]
pub struct ConfigArgs {
    pub allow_unknown_fields: bool,
    pub context: Option<String>,
    pub env_prefix: Option<String>,
    pub file: Option<String>,
    pub rename: Option<String>,
    pub rename_all: Option<String>,
}

/// The declared value type of a setting marked extendable.
#[derive(Clone, Copy, Debug, PartialEq, Eq, Structural)]
pub enum ExtendsValueType {
    /// A single source reference.
    SingleString,
    /// An ordered list of source references.
    StringList,
    /// The extends union type itself.
    ExtendsUnion,
    /// The setting's type has no inner type to inspect.
    NoInner,
    /// Any other type; extending through it is rejected.
    Other,
}

/// One declared setting, as the generation step sees it.
#[derive(Debug, PartialEq, Eq)]
pub struct Setting {
    pub name: String,
    pub extendable: bool,
    pub value_type: ExtendsValueType,
}

/// A declared configuration type: its arguments, its name, and its
/// settings in declaration order.
#[derive(Debug, PartialEq, Eq)]
pub struct Config {
    pub args: ConfigArgs,
    pub serde_args: SerdeArgs,
    pub name: String,
    pub settings: Vec<Setting>,
}

/// How the extends value is read out of the extendable setting.
#[derive(Clone, Copy, Debug, PartialEq, Eq, Structural)]
pub enum ExtendsKind {
    /// Wrap the setting's single string.
    FromString,
    /// Wrap the setting's list of strings.
    FromList,
    /// Use the setting's extends value as it is.
    FromValue,
}

/// The decision of the extends analysis: which setting to read, and
/// how.
#[derive(Debug, PartialEq, Eq)]
pub struct ExtendsDirective {
    pub kind: ExtendsKind,
    pub name: String,
}

/// A rejection of the declaration itself, before any resolution.
#[derive(Clone, Copy, Debug, PartialEq, Eq, Structural)]
pub enum BuildError {
    /// More than one setting is marked extendable.
    MultipleExtendable,
    /// The extendable setting's type supports no extends value.
    UnsupportedExtendsType,
}

/// The mathematical shape of a setting.
pub struct SettingView {
    pub name: Seq<char>,
    pub extendable: bool,
    pub value_type: ExtendsValueType,
}

impl View for Setting {
    type V = SettingView;

    open spec fn view(&self) -> SettingView {
        SettingView { name: self.name@, extendable: self.extendable, value_type: self.value_type }
    }
}

/// The views of a vector of settings.
pub open spec fn settings_view(settings: Seq<Setting>) -> Seq<SettingView> {
    Seq::new(settings.len(), |i: int| settings[i]@)
}

/// The mathematical shape of an extends directive.
pub struct DirectiveView {
    pub kind: ExtendsKind,
    pub name: Seq<char>,
}

impl View for ExtendsDirective {
    type V = DirectiveView;

    open spec fn view(&self) -> DirectiveView {
        DirectiveView { kind: self.kind, name: self.name@ }
    }
}

/// How many settings are marked extendable.
pub open spec fn extendable_count(settings: Seq<SettingView>) -> nat
    decreases settings.len(),
{
    if settings.len() == 0 {
        0
    } else {
        (if settings[0].extendable {
            1nat
        } else {
            0nat
        }) + extendable_count(settings.drop_first())
    }
}

/// The first setting marked extendable, if any.
pub open spec fn first_extendable(settings: Seq<SettingView>) -> Option<SettingView>
    decreases settings.len(),
{
    if settings.len() == 0 {
        Option::None
    } else if settings[0].extendable {
        Option::Some(settings[0])
    } else {
        first_extendable(settings.drop_first())
    }
}

/// There is no extendable setting exactly when the count is zero.
proof fn lemma_count_first(settings: Seq<SettingView>)
    ensures
        (extendable_count(settings) == 0) <==> (first_extendable(settings) is None),
    decreases settings.len(),
{
    if settings.len() > 0 && !settings[0].extendable {
        lemma_count_first(settings.drop_first());
    }
}

/// What the extends analysis decides: more than one extendable
/// setting is rejected outright; a single one is read according to
/// its declared value type, rejecting unsupported types; none means
/// the type takes part in no extends chain.
pub open spec fn extends_decision(settings: Seq<SettingView>) -> Result<
    Option<DirectiveView>,
    BuildError,
> {
    if extendable_count(settings) > 1 {
        Err(BuildError::MultipleExtendable)
    } else {
        match first_extendable(settings) {
            Option::Some(s) => match s.value_type {
                ExtendsValueType::SingleString => Ok(
                    Option::Some(DirectiveView { kind: ExtendsKind::FromString, name: s.name }),
                ),
                ExtendsValueType::StringList => Ok(
                    Option::Some(DirectiveView { kind: ExtendsKind::FromList, name: s.name }),
                ),
                ExtendsValueType::ExtendsUnion => Ok(
                    Option::Some(DirectiveView { kind: ExtendsKind::FromValue, name: s.name }),
                ),
                ExtendsValueType::NoInner => Ok(Option::None),
                ExtendsValueType::Other => Err(BuildError::UnsupportedExtendsType),
            },
            Option::None => Ok(Option::None),
        }
    }
}

/// The view of an extends analysis result.
pub open spec fn extends_res_view(r: Result<Option<ExtendsDirective>, BuildError>) -> Result<
    Option<DirectiveView>,
    BuildError,
> {
    match r {
        Ok(Option::Some(d)) => Ok(Option::Some(d@)),
        Ok(Option::None) => Ok(Option::None),
        Err(e) => Err(e),
    }
}

/// The view of an optional string.
pub open spec fn ostr_view(s: Option<String>) -> Option<Seq<char>> {
    match s {
        Option::Some(v) => Option::Some(v@),
        Option::None => Option::None,
    }
}

/// The casing format for a configuration's field names: its own
/// declared format, else the serialization attribute's, else camel
/// case.
pub open spec fn casing_format_spec(
    args_rename_all: Option<Seq<char>>,
    serde_rename_all: Option<Seq<char>>,
) -> Seq<char> {
    match args_rename_all {
        Option::Some(s) => s,
        Option::None => match serde_rename_all {
            Option::Some(s) => s,
            Option::None => "camelCase"@,
        },
    }
}

/// The public name of a configuration: the declared rename, else the
/// type's own name.
pub open spec fn meta_name_spec(args_rename: Option<Seq<char>>, name: Seq<char>) -> Seq<char> {
    match args_rename {
        Option::Some(s) => s,
        Option::None => name,
    }
}

/// The metadata record generated for a configuration type.
#[derive(Debug, PartialEq, Eq)]
pub struct Meta {
    pub name: String,
}

/// One serialization directive attached to the partial counterpart.
#[derive(Debug, PartialEq, Eq)]
pub enum SerdeDirective {
    /// Fill missing fields from the type's own defaults.
    Default,
    /// Reject fields the schema does not declare.
    DenyUnknownFields,
    /// Serialize the type under another name.
    Rename(String),
    /// Apply a casing format to every field name.
    RenameAll(String),
}

/// The mathematical shape of a serialization directive.
pub enum SerdeMetaView {
    Default,
    DenyUnknownFields,
    Rename(Seq<char>),
    RenameAll(Seq<char>),
}

impl View for SerdeDirective {
    type V = SerdeMetaView;

    open spec fn view(&self) -> SerdeMetaView {
        match self {
            SerdeDirective::Default => SerdeMetaView::Default,
            SerdeDirective::DenyUnknownFields => SerdeMetaView::DenyUnknownFields,
            SerdeDirective::Rename(s) => SerdeMetaView::Rename(s@),
            SerdeDirective::RenameAll(s) => SerdeMetaView::RenameAll(s@),
        }
    }
}

/// The views of a vector of serialization directives.
pub open spec fn serde_meta_view(items: Seq<SerdeDirective>) -> Seq<SerdeMetaView> {
    Seq::new(items.len(), |i: int| items[i]@)
}

/// The serialization directives of a partial counterpart, in order:
/// defaults always; unknown fields rejected unless allowed; a rename
/// from the configuration's own arguments, else from the
/// serialization attributes, else none; and the casing format last.
pub open spec fn serde_meta_spec(
    allow_unknown_fields: bool,
    args_rename: Option<Seq<char>>,
    serde_rename: Option<Seq<char>>,
    casing: Seq<char>,
) -> Seq<SerdeMetaView> {
    let base = seq![SerdeMetaView::Default];
    let with_deny = if !allow_unknown_fields {
        base.push(SerdeMetaView::DenyUnknownFields)
    } else {
        base
    };
    let with_rename = match args_rename {
        Option::Some(s) => with_deny.push(SerdeMetaView::Rename(s)),
        Option::None => match serde_rename {
            Option::Some(s) => with_deny.push(SerdeMetaView::Rename(s)),
            Option::None => with_deny,
        },
    };
    with_rename.push(SerdeMetaView::RenameAll(casing))
}

impl Config {
    /// Decides how this configuration takes part in extends chains:
    /// at most one setting may be marked extendable, and it must hold
    /// a supported extends value type.
    #[verifier::loop_isolation(false)]
    pub fn extends_from(&self) -> (r: Result<Option<ExtendsDirective>, BuildError>)
        ensures
            extends_res_view(r) == extends_decision(settings_view(self.settings@)),
    {
        let ghost sv = settings_view(self.settings@);
        let n = self.settings.len();
        let mut count: usize = 0;
        let mut first: Option<usize> = None;
        let mut i: usize = 0;
        proof {
            assert(sv.skip(0) =~= sv);
        }
        while i < n
            invariant
                i <= n,
                n == self.settings@.len(),
                count <= i,
                extendable_count(sv) == count + extendable_count(sv.skip(i as int)),
                match first {
                    Option::Some(j) => j < i && sv[j as int].extendable && first_extendable(sv)
                        == Option::Some(sv[j as int]),
                    Option::None => count == 0 && first_extendable(sv) == first_extendable(
                        sv.skip(i as int),
                    ),
                },
            decreases n - i,
        {
            proof {
                let tail = sv.skip(i as int);
                assert(tail[0] == sv[i as int]);
                assert(tail.drop_first() =~= sv.skip(i as int + 1));
            }
            if self.settings[i].extendable {
                count = count + 1;
                if first.is_none() {
                    first = Some(i);
                }
            }
            i = i + 1;
        }
        proof {
            assert(sv.skip(n as int) =~= Seq::<SettingView>::empty());
            lemma_count_first(sv);
        }
        if count > 1 {
            return Err(BuildError::MultipleExtendable);
        }
        match first {
            Option::Some(j) => {
                let s = &self.settings[j];
                match s.value_type {
                    ExtendsValueType::SingleString => Ok(
                        Some(ExtendsDirective { kind: ExtendsKind::FromString, name: s.name.clone() }),
                    ),
                    ExtendsValueType::StringList => Ok(
                        Some(ExtendsDirective { kind: ExtendsKind::FromList, name: s.name.clone() }),
                    ),
                    ExtendsValueType::ExtendsUnion => Ok(
                        Some(ExtendsDirective { kind: ExtendsKind::FromValue, name: s.name.clone() }),
                    ),
                    ExtendsValueType::NoInner => Ok(None),
                    ExtendsValueType::Other => Err(BuildError::UnsupportedExtendsType),
                }
            },
            Option::None => Ok(None),
        }
    }

    /// The casing format applied to this configuration's field names.
    pub fn get_casing_format(&self) -> (r: &str)
        ensures
            r@ == casing_format_spec(
                ostr_view(self.args.rename_all),
                ostr_view(self.serde_args.rename_all),
            ),
    {
        match &self.args.rename_all {
            Option::Some(s) => s.as_str(),
            Option::None => match &self.serde_args.rename_all {
                Option::Some(s) => s.as_str(),
                Option::None => "camelCase",
            },
        }
    }

    /// The metadata record for this configuration: its declared
    /// rename, else its own type name.
    pub fn get_meta_struct(&self) -> (r: Meta)
        ensures
            r.name@ == meta_name_spec(ostr_view(self.args.rename), self.name@),
    {
        match &self.args.rename {
            Option::Some(s) => Meta { name: s.clone() },
            Option::None => Meta { name: self.name.clone() },
        }
    }

    /// The serialization directives of this configuration's partial
    /// counterpart, per [`serde_meta_spec`].
    pub fn get_serde_meta(&self) -> (r: Vec<SerdeDirective>)
        ensures
            serde_meta_view(r@) == serde_meta_spec(
                self.args.allow_unknown_fields,
                ostr_view(self.args.rename),
                ostr_view(self.serde_args.rename),
                casing_format_spec(
                    ostr_view(self.args.rename_all),
                    ostr_view(self.serde_args.rename_all),
                ),
            ),
    {
        let mut meta: Vec<SerdeDirective> = Vec::new();
        meta.push(SerdeDirective::Default);
        if !self.args.allow_unknown_fields {
            meta.push(SerdeDirective::DenyUnknownFields);
        }
        match &self.args.rename {
            Option::Some(s) => {
                meta.push(SerdeDirective::Rename(s.clone()));
            },
            Option::None => {
                match &self.serde_args.rename {
                    Option::Some(s) => {
                        meta.push(SerdeDirective::Rename(s.clone()));
                    },
                    Option::None => {},
                }
            },
        }
        let casing = self.get_casing_format().to_owned();
        meta.push(SerdeDirective::RenameAll(casing));
        proof {
            assert(serde_meta_view(meta@) =~= serde_meta_spec(
                self.args.allow_unknown_fields,
                ostr_view(self.args.rename),
                ostr_view(self.serde_args.rename),
                casing_format_spec(
                    ostr_view(self.args.rename_all),
                    ostr_view(self.serde_args.rename_all),
                ),
            ));
        }
        meta
    }
}

} // verus!

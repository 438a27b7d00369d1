//! Taxonomy declarations and their validation.
//!
//! A declaration is what the author of an error type writes down: for the
//! type and for each of its variants a list of `key = "value"` entries. The
//! type takes `app_type` (required) and `prefix`; a variant takes `code`
//! (required, not empty), `app_code` (required) and `client_msg`. A key that
//! is not among these, or that is given twice in one list, is a defect of the
//! declaration, as is a required key that is absent. [`Taxonomy::parse`]
//! reports the first defect, or hands out the validated taxonomy.
//!
//! Validation looks at the shape of a declaration only. Whether an
//! application code reads as a value of the target type shows when a record
//! is built from it.

use crate::text::same_text;
use vstd::prelude::*;
use vstd::string::StringExecFns;

verus! {

/// One `key = "value"` entry.
pub struct Attr {
    pub key: String,
    pub value: String,
}

/// A variant as declared: its name and its entries, in the order written.
pub struct VariantDecl {
    pub name: String,
    pub attrs: Vec<Attr>,
}

/// An error type as declared: its name, its own entries, and its variants in
/// declared order.
pub struct TaxonomyDecl {
    pub name: String,
    pub attrs: Vec<Attr>,
    pub variants: Vec<VariantDecl>,
}

/// A validated variant.
pub struct VariantSpec {
    pub name: String,
    pub short_code: String,
    pub app_code: String,
    /// Empty where the declaration gives none: the full message is then what
    /// a client is shown.
    pub client_msg: String,
}

/// A validated taxonomy. It is well formed ([`TaxonomyView::wf`]): it has at
/// least one variant, and no variant's short code is empty.
pub struct Taxonomy {
    pub name: String,
    /// The name of the type that application codes are read into.
    pub app_code_type: String,
    pub prefix: String,
    pub variants: Vec<VariantSpec>,
}

/// Where a list of entries stands: on the type or on one of its variants.
#[derive(Debug, Clone, Copy, PartialEq, Eq)]
pub enum Scope {
    Taxonomy,
    Variant,
}

/// What is wrong with a single entry.
#[derive(Debug, Clone, Copy, PartialEq, Eq)]
pub enum AttrDefect {
    /// Its key is not one that its scope takes.
    UnknownKey,
    /// Its key stands in an earlier entry of the same list.
    DuplicateKey,
}

/// A defect of a declaration. `variant` and `attr` are positions, counted
/// from zero, in the declaration's list of variants and in the list of
/// entries at fault.
#[derive(Debug, Clone, Copy, PartialEq, Eq)]
pub enum SchemaError {
    UnknownTaxonomyKey { attr: usize },
    DuplicateTaxonomyKey { attr: usize },
    MissingAppType,
    NoVariants,
    UnknownVariantKey { variant: usize, attr: usize },
    DuplicateVariantKey { variant: usize, attr: usize },
    MissingCode { variant: usize },
    EmptyCode { variant: usize },
    MissingAppCode { variant: usize },
}

/// An entry as a mathematical value.
pub struct AttrView {
    pub key: Seq<char>,
    pub value: Seq<char>,
}

/// A declared variant as a mathematical value.
pub struct VariantDeclView {
    pub name: Seq<char>,
    pub attrs: Seq<AttrView>,
}

/// A declaration as a mathematical value.
pub struct TaxonomyDeclView {
    pub name: Seq<char>,
    pub attrs: Seq<AttrView>,
    pub variants: Seq<VariantDeclView>,
}

/// A validated variant as a mathematical value.
pub struct VariantSpecView {
    pub name: Seq<char>,
    pub short_code: Seq<char>,
    pub app_code: Seq<char>,
    pub client_msg: Seq<char>,
}

/// A validated taxonomy as a mathematical value.
pub struct TaxonomyView {
    pub name: Seq<char>,
    pub app_code_type: Seq<char>,
    pub prefix: Seq<char>,
    pub variants: Seq<VariantSpecView>,
}

impl View for Attr {
    type V = AttrView;

    open spec fn view(&self) -> AttrView {
        AttrView { key: self.key@, value: self.value@ }
    }
}

/// A list of entries as a mathematical sequence.
pub open spec fn attrs_view(attrs: Seq<Attr>) -> Seq<AttrView> {
    attrs.map_values(|a: Attr| a@)
}

impl View for VariantDecl {
    type V = VariantDeclView;

    open spec fn view(&self) -> VariantDeclView {
        VariantDeclView { name: self.name@, attrs: attrs_view(self.attrs@) }
    }
}

impl View for TaxonomyDecl {
    type V = TaxonomyDeclView;

    open spec fn view(&self) -> TaxonomyDeclView {
        TaxonomyDeclView {
            name: self.name@,
            attrs: attrs_view(self.attrs@),
            variants: self.variants@.map_values(|v: VariantDecl| v@),
        }
    }
}

impl View for VariantSpec {
    type V = VariantSpecView;

    open spec fn view(&self) -> VariantSpecView {
        VariantSpecView {
            name: self.name@,
            short_code: self.short_code@,
            app_code: self.app_code@,
            client_msg: self.client_msg@,
        }
    }
}

impl View for Taxonomy {
    type V = TaxonomyView;

    open spec fn view(&self) -> TaxonomyView {
        TaxonomyView {
            name: self.name@,
            app_code_type: self.app_code_type@,
            prefix: self.prefix@,
            variants: self.variants@.map_values(|v: VariantSpec| v@),
        }
    }
}

impl TaxonomyView {
    /// There is at least one variant, and every variant has a short code
    /// that is not empty.
    pub open spec fn wf(self) -> bool {
        &&& self.variants.len() >= 1
        &&& forall|i: int|
            0 <= i < self.variants.len() ==> (#[trigger] self.variants[i]).short_code.len() > 0
    }
}

/// The keys that a scope takes.
pub open spec fn recognized(scope: Scope, key: Seq<char>) -> bool {
    match scope {
        Scope::Taxonomy => key == "app_type"@ || key == "prefix"@,
        Scope::Variant => key == "code"@ || key == "app_code"@ || key == "client_msg"@,
    }
}

/// The value of the first entry with the given key.
pub open spec fn value_of(attrs: Seq<AttrView>, key: Seq<char>) -> Option<Seq<char>>
    decreases attrs.len(),
{
    if attrs.len() == 0 {
        None
    } else if attrs[0].key == key {
        Some(attrs[0].value)
    } else {
        value_of(attrs.skip(1), key)
    }
}

/// What is wrong with the entry at position `i`, if anything.
pub open spec fn attr_defect_at(attrs: Seq<AttrView>, i: int, scope: Scope) -> Option<AttrDefect> {
    if !recognized(scope, attrs[i].key) {
        Some(AttrDefect::UnknownKey)
    } else if value_of(attrs.take(i), attrs[i].key) is Some {
        Some(AttrDefect::DuplicateKey)
    } else {
        None
    }
}

/// The position of the first entry at fault, and what is wrong with it.
pub open spec fn first_attr_defect(attrs: Seq<AttrView>, scope: Scope) -> Option<(int, AttrDefect)>
    decreases attrs.len(),
{
    if attrs.len() == 0 {
        None
    } else {
        match first_attr_defect(attrs.drop_last(), scope) {
            Some(found) => Some(found),
            None => match attr_defect_at(attrs, attrs.len() - 1, scope) {
                Some(defect) => Some((attrs.len() - 1, defect)),
                None => None,
            },
        }
    }
}

/// The defect of the variant at position `index`, if it has one: the first
/// entry at fault or, where every entry is in order, the first of `code`
/// absent, `code` empty, `app_code` absent.
pub open spec fn variant_defect(v: VariantDeclView, index: int) -> Option<SchemaError> {
    match first_attr_defect(v.attrs, Scope::Variant) {
        Some((i, AttrDefect::UnknownKey)) => Some(
            SchemaError::UnknownVariantKey { variant: index as usize, attr: i as usize },
        ),
        Some((i, AttrDefect::DuplicateKey)) => Some(
            SchemaError::DuplicateVariantKey { variant: index as usize, attr: i as usize },
        ),
        None => match value_of(v.attrs, "code"@) {
            None => Some(SchemaError::MissingCode { variant: index as usize }),
            Some(code) => if code.len() == 0 {
                Some(SchemaError::EmptyCode { variant: index as usize })
            } else if value_of(v.attrs, "app_code"@) is None {
                Some(SchemaError::MissingAppCode { variant: index as usize })
            } else {
                None
            },
        },
    }
}

/// The defect of the first variant that has one.
pub open spec fn first_variant_defect(variants: Seq<VariantDeclView>) -> Option<SchemaError>
    decreases variants.len(),
{
    if variants.len() == 0 {
        None
    } else {
        match first_variant_defect(variants.drop_last()) {
            Some(found) => Some(found),
            None => variant_defect(variants.last(), variants.len() - 1),
        }
    }
}

/// The first defect of a declaration: of the type's own entries, then
/// `app_type` absent, then no variant at all, then the variants in declared
/// order.
pub open spec fn taxonomy_defect(decl: TaxonomyDeclView) -> Option<SchemaError> {
    match first_attr_defect(decl.attrs, Scope::Taxonomy) {
        Some((i, AttrDefect::UnknownKey)) => Some(
            SchemaError::UnknownTaxonomyKey { attr: i as usize },
        ),
        Some((i, AttrDefect::DuplicateKey)) => Some(
            SchemaError::DuplicateTaxonomyKey { attr: i as usize },
        ),
        None => if value_of(decl.attrs, "app_type"@) is None {
            Some(SchemaError::MissingAppType)
        } else if decl.variants.len() == 0 {
            Some(SchemaError::NoVariants)
        } else {
            first_variant_defect(decl.variants)
        },
    }
}

/// The value given for a key, or the empty string where none is given.
pub open spec fn value_or_empty(attrs: Seq<AttrView>, key: Seq<char>) -> Seq<char> {
    match value_of(attrs, key) {
        Some(value) => value,
        None => Seq::empty(),
    }
}

/// What a declared variant resolves to.
pub open spec fn resolve_variant(v: VariantDeclView) -> VariantSpecView {
    VariantSpecView {
        name: v.name,
        short_code: value_or_empty(v.attrs, "code"@),
        app_code: value_or_empty(v.attrs, "app_code"@),
        client_msg: value_or_empty(v.attrs, "client_msg"@),
    }
}

/// What a declaration resolves to: the prefix defaults to the empty string,
/// a variant's client message too, and the variants keep their order.
pub open spec fn resolve(decl: TaxonomyDeclView) -> TaxonomyView {
    TaxonomyView {
        name: decl.name,
        app_code_type: value_or_empty(decl.attrs, "app_type"@),
        prefix: value_or_empty(decl.attrs, "prefix"@),
        variants: decl.variants.map_values(|v: VariantDeclView| resolve_variant(v)),
    }
}

/// Once an entry is at fault, the first defect stays what it is however the
/// list goes on.
pub proof fn lemma_first_attr_defect_prefix(attrs: Seq<AttrView>, k: int, scope: Scope)
    requires
        0 <= k <= attrs.len(),
        first_attr_defect(attrs.take(k), scope) is Some,
    ensures
        first_attr_defect(attrs, scope) == first_attr_defect(attrs.take(k), scope),
    decreases attrs.len(),
{
    if k == attrs.len() {
        assert(attrs.take(k) =~= attrs);
    } else {
        assert(attrs.drop_last().take(k) =~= attrs.take(k));
        lemma_first_attr_defect_prefix(attrs.drop_last(), k, scope);
    }
}

/// Once a variant is at fault, the first defect stays what it is however the
/// list goes on.
pub proof fn lemma_first_variant_defect_prefix(variants: Seq<VariantDeclView>, k: int)
    requires
        0 <= k <= variants.len(),
        first_variant_defect(variants.take(k)) is Some,
    ensures
        first_variant_defect(variants) == first_variant_defect(variants.take(k)),
    decreases variants.len(),
{
    if k == variants.len() {
        assert(variants.take(k) =~= variants);
    } else {
        assert(variants.drop_last().take(k) =~= variants.take(k));
        lemma_first_variant_defect_prefix(variants.drop_last(), k);
    }
}

/// Where no variant is at fault, each variant is without defect.
pub proof fn lemma_no_variant_defect(variants: Seq<VariantDeclView>, i: int)
    requires
        first_variant_defect(variants) is None,
        0 <= i < variants.len(),
    ensures
        variant_defect(variants[i], i) is None,
    decreases variants.len(),
{
    if i < variants.len() - 1 {
        lemma_no_variant_defect(variants.drop_last(), i);
    }
}

/// A declaration without defect resolves to a well-formed taxonomy: it has a
/// variant, and every variant has a short code that is not empty. Each
/// variant's application code is the text that its declaration gives; whether
/// that text reads as a code is not looked into here.
pub proof fn lemma_valid_declaration_resolves_well_formed(decl: TaxonomyDeclView)
    requires
        taxonomy_defect(decl) is None,
    ensures
        resolve(decl).wf(),
        resolve(decl).variants.len() == decl.variants.len(),
        forall|i: int|
            0 <= i < decl.variants.len() ==> value_of(
                (#[trigger] decl.variants[i]).attrs,
                "app_code"@,
            ) == Some(resolve(decl).variants[i].app_code),
{
    assert forall|i: int| 0 <= i < decl.variants.len() implies (#[trigger] resolve(
        decl,
    ).variants[i]).short_code.len() > 0 && value_of(decl.variants[i].attrs, "app_code"@) == Some(
        resolve(decl).variants[i].app_code,
    ) by {
        lemma_no_variant_defect(decl.variants, i);
    }
}

/// Whether a scope takes a key.
fn is_recognized(scope: Scope, key: &str) -> (known: bool)
    ensures
        known == recognized(scope, key@),
{
    match scope {
        Scope::Taxonomy => same_text(key, "app_type") || same_text(key, "prefix"),
        Scope::Variant => same_text(key, "code") || same_text(key, "app_code") || same_text(
            key,
            "client_msg",
        ),
    }
}

/// The position of the first entry, among the first `upto`, with the given
/// key.
fn find(attrs: &Vec<Attr>, upto: usize, key: &str) -> (found: Option<usize>)
    requires
        upto <= attrs.len(),
    ensures
        match found {
            Some(j) => j < upto && attrs[j as int].key@ == key@ && value_of(
                attrs_view(attrs@).take(upto as int),
                key@,
            ) == Some(attrs[j as int].value@),
            None => value_of(attrs_view(attrs@).take(upto as int), key@) is None,
        },
{
    let ghost among = attrs_view(attrs@).take(upto as int);
    let mut i: usize = 0;
    assert(among.skip(0) =~= among);
    while i < upto
        invariant
            i <= upto <= attrs.len(),
            among == attrs_view(attrs@).take(upto as int),
            value_of(among, key@) == value_of(among.skip(i as int), key@),
        decreases upto - i,
    {
        if same_text(attrs[i].key.as_str(), key) {
            return Some(i);
        }
        assert(among.skip(i as int).skip(1) =~= among.skip(i + 1));
        i = i + 1;
    }
    None
}

/// The value given for a key.
fn lookup<'a>(attrs: &'a Vec<Attr>, key: &str) -> (value: Option<&'a String>)
    ensures
        match value {
            Some(text) => value_of(attrs_view(attrs@), key@) == Some(text@),
            None => value_of(attrs_view(attrs@), key@) is None,
        },
{
    assert(attrs_view(attrs@).take(attrs.len() as int) =~= attrs_view(attrs@));
    match find(attrs, attrs.len(), key) {
        Some(j) => Some(&attrs[j].value),
        None => None,
    }
}

/// A copy of the value given for a key, or the empty string.
fn lookup_or_empty(attrs: &Vec<Attr>, key: &str) -> (value: String)
    ensures
        value@ == value_or_empty(attrs_view(attrs@), key@),
{
    match lookup(attrs, key) {
        Some(text) => text.clone(),
        None => String::new(),
    }
}

/// Looks for the first entry whose key its scope does not take or an earlier
/// entry holds already.
fn check_attrs(attrs: &Vec<Attr>, scope: Scope) -> (found: Option<(usize, AttrDefect)>)
    ensures
        match found {
            Some((i, defect)) => i < attrs.len() && first_attr_defect(
                attrs_view(attrs@),
                scope,
            ) == Some((i as int, defect)),
            None => first_attr_defect(attrs_view(attrs@), scope) is None,
        },
{
    let ghost all = attrs_view(attrs@);
    let mut i: usize = 0;
    while i < attrs.len()
        invariant
            i <= attrs.len(),
            all == attrs_view(attrs@),
            first_attr_defect(all.take(i as int), scope) is None,
        decreases attrs.len() - i,
    {
        let key = attrs[i].key.as_str();
        proof {
            let upto = all.take(i + 1);
            assert(upto.take(i as int) =~= all.take(i as int));
        }
        let defect = if !is_recognized(scope, key) {
            Some(AttrDefect::UnknownKey)
        } else if find(attrs, i, key).is_some() {
            Some(AttrDefect::DuplicateKey)
        } else {
            None
        };
        match defect {
            Some(d) => {
                proof {
                    lemma_first_attr_defect_prefix(all, i + 1, scope);
                }
                return Some((i, d));
            },
            None => {},
        }
        i = i + 1;
    }
    assert(all.take(i as int) =~= all);
    None
}

impl VariantSpec {
    /// Validates the variant declared at position `index` and resolves it.
    pub fn parse(decl: &VariantDecl, index: usize) -> (parsed: Result<VariantSpec, SchemaError>)
        ensures
            match parsed {
                Ok(v) => variant_defect(decl@, index as int) is None && v@ == resolve_variant(
                    decl@,
                ) && v@.short_code.len() > 0,
                Err(e) => variant_defect(decl@, index as int) == Some(e) && e.variant() == Some(
                    index,
                ) && e.attr_fits(decl@.attrs),
            },
    {
        match check_attrs(&decl.attrs, Scope::Variant) {
            Some((attr, AttrDefect::UnknownKey)) => {
                return Err(SchemaError::UnknownVariantKey { variant: index, attr });
            },
            Some((attr, AttrDefect::DuplicateKey)) => {
                return Err(SchemaError::DuplicateVariantKey { variant: index, attr });
            },
            None => {},
        }
        let short_code = match lookup(&decl.attrs, "code") {
            None => {
                return Err(SchemaError::MissingCode { variant: index });
            },
            Some(code) => code.clone(),
        };
        if short_code.as_str().is_empty() {
            return Err(SchemaError::EmptyCode { variant: index });
        }
        let app_code = match lookup(&decl.attrs, "app_code") {
            None => {
                return Err(SchemaError::MissingAppCode { variant: index });
            },
            Some(code) => code.clone(),
        };
        let client_msg = lookup_or_empty(&decl.attrs, "client_msg");
        Ok(VariantSpec { name: decl.name.clone(), short_code, app_code, client_msg })
    }
}

impl Taxonomy {
    /// Validates a declaration and resolves it.
    ///
    /// A declaration with a defect gives the first one, in this order: the
    /// type's own entries, `app_type` absent, no variant, then the variants
    /// as declared and within each its entries, `code` absent, `code` empty,
    /// `app_code` absent. A declaration without defect gives the taxonomy it
    /// resolves to, which is well formed.
    pub fn parse(decl: &TaxonomyDecl) -> (parsed: Result<Taxonomy, SchemaError>)
        ensures
            match parsed {
                Ok(t) => taxonomy_defect(decl@) is None && t@ == resolve(decl@) && t@.wf(),
                Err(e) => taxonomy_defect(decl@) == Some(e) && e.fits(decl@),
            },
    {
        match check_attrs(&decl.attrs, Scope::Taxonomy) {
            Some((attr, AttrDefect::UnknownKey)) => {
                return Err(SchemaError::UnknownTaxonomyKey { attr });
            },
            Some((attr, AttrDefect::DuplicateKey)) => {
                return Err(SchemaError::DuplicateTaxonomyKey { attr });
            },
            None => {},
        }
        let app_code_type = match lookup(&decl.attrs, "app_type") {
            None => {
                return Err(SchemaError::MissingAppType);
            },
            Some(name) => name.clone(),
        };
        if decl.variants.len() == 0 {
            return Err(SchemaError::NoVariants);
        }
        let prefix = lookup_or_empty(&decl.attrs, "prefix");
        let ghost declared = decl@.variants;
        let mut variants: Vec<VariantSpec> = Vec::new();
        let mut i: usize = 0;
        while i < decl.variants.len()
            invariant
                i <= decl.variants.len(),
                declared == decl@.variants,
                declared.len() > 0,
                first_attr_defect(decl@.attrs, Scope::Taxonomy) is None,
                value_of(decl@.attrs, "app_type"@) is Some,
                first_variant_defect(declared.take(i as int)) is None,
                variants.len() == i,
                forall|j: int|
                    0 <= j < i ==> (#[trigger] variants[j])@ == resolve_variant(declared[j]),
                forall|j: int| 0 <= j < i ==> (#[trigger] variants[j])@.short_code.len() > 0,
            decreases decl.variants.len() - i,
        {
            proof {
                let upto = declared.take(i + 1);
                assert(upto.drop_last() =~= declared.take(i as int));
            }
            match VariantSpec::parse(&decl.variants[i], i) {
                Err(e) => {
                    proof {
                        lemma_first_variant_defect_prefix(declared, i + 1);
                    }
                    return Err(e);
                },
                Ok(v) => {
                    variants.push(v);
                },
            }
            i = i + 1;
        }
        assert(declared.take(i as int) =~= declared);
        let taxonomy = Taxonomy { name: decl.name.clone(), app_code_type, prefix, variants };
        assert(taxonomy@.variants =~= resolve(decl@).variants);
        Ok(taxonomy)
    }
}

impl SchemaError {
    /// The position of the variant at fault, where the defect is a variant's.
    #[verifier::when_used_as_spec(spec_variant)]
    pub fn variant(&self) -> (at: Option<usize>)
        ensures
            at == self.spec_variant(),
    {
        match self {
            SchemaError::UnknownVariantKey { variant, .. }
            | SchemaError::DuplicateVariantKey { variant, .. }
            | SchemaError::MissingCode { variant }
            | SchemaError::EmptyCode { variant }
            | SchemaError::MissingAppCode { variant } => Some(*variant),
            _ => None,
        }
    }

    /// The position of the variant at fault, where the defect is a variant's.
    pub open spec fn spec_variant(&self) -> Option<usize> {
        match self {
            SchemaError::UnknownVariantKey { variant, .. }
            | SchemaError::DuplicateVariantKey { variant, .. }
            | SchemaError::MissingCode { variant }
            | SchemaError::EmptyCode { variant }
            | SchemaError::MissingAppCode { variant } => Some(*variant),
            _ => None,
        }
    }

    /// The position of the entry at fault, where the defect is an entry's.
    #[verifier::when_used_as_spec(spec_attr)]
    pub fn attr(&self) -> (at: Option<usize>)
        ensures
            at == self.spec_attr(),
    {
        match self {
            SchemaError::UnknownTaxonomyKey { attr }
            | SchemaError::DuplicateTaxonomyKey { attr }
            | SchemaError::UnknownVariantKey { attr, .. }
            | SchemaError::DuplicateVariantKey { attr, .. } => Some(*attr),
            _ => None,
        }
    }

    /// The position of the entry at fault, where the defect is an entry's.
    pub open spec fn spec_attr(&self) -> Option<usize> {
        match self {
            SchemaError::UnknownTaxonomyKey { attr }
            | SchemaError::DuplicateTaxonomyKey { attr }
            | SchemaError::UnknownVariantKey { attr, .. }
            | SchemaError::DuplicateVariantKey { attr, .. } => Some(*attr),
            _ => None,
        }
    }

    /// Whether the entry that the defect points at, if any, is in `attrs`.
    pub open spec fn attr_fits(self, attrs: Seq<AttrView>) -> bool {
        match self.spec_attr() {
            Some(attr) => attr < attrs.len(),
            None => true,
        }
    }

    /// Whether the variant and the entry that the defect points at exist in
    /// the declaration.
    pub open spec fn fits(self, decl: TaxonomyDeclView) -> bool {
        match self.spec_variant() {
            Some(variant) => variant < decl.variants.len() && self.attr_fits(
                decl.variants[variant as int].attrs,
            ),
            None => self.attr_fits(decl.attrs),
        }
    }

    /// What the defect is, in words. `attrs` is the list of entries at fault.
    pub open spec fn complaint_spec(self, attrs: Seq<AttrView>) -> Seq<char> {
        match self {
            SchemaError::UnknownTaxonomyKey { attr } | SchemaError::UnknownVariantKey {
                attr,
                ..
            } => "unknown key `"@ + attrs[attr as int].key + "`"@,
            SchemaError::DuplicateTaxonomyKey { attr } | SchemaError::DuplicateVariantKey {
                attr,
                ..
            } => "duplicate key `"@ + attrs[attr as int].key + "`"@,
            SchemaError::MissingAppType => "missing `app_type`"@,
            SchemaError::NoVariants => "no variants"@,
            SchemaError::MissingCode { .. } => "missing `code`"@,
            SchemaError::EmptyCode { .. } => "empty `code`"@,
            SchemaError::MissingAppCode { .. } => "missing `app_code`"@,
        }
    }

    /// The diagnostic line for a defect of a declaration: the taxonomy's
    /// name, then for a variant's defect `::` and the variant's name, then a
    /// colon, a space and the defect in words.
    pub open spec fn describe_spec(self, decl: TaxonomyDeclView) -> Seq<char> {
        match self.spec_variant() {
            Some(variant) => decl.name + "::"@ + decl.variants[variant as int].name + ": "@
                + self.complaint_spec(decl.variants[variant as int].attrs),
            None => decl.name + ": "@ + self.complaint_spec(decl.attrs),
        }
    }

    /// Says in words what the defect is.
    fn complaint(&self, attrs: &Vec<Attr>) -> (text: String)
        requires
            self.attr_fits(attrs_view(attrs@)),
        ensures
            text@ == self.complaint_spec(attrs_view(attrs@)),
    {
        match self {
            SchemaError::UnknownTaxonomyKey { attr } | SchemaError::UnknownVariantKey {
                attr,
                ..
            } => {
                let mut text = String::from_str("unknown key `");
                text.append(attrs[*attr].key.as_str());
                text.append("`");
                text
            },
            SchemaError::DuplicateTaxonomyKey { attr } | SchemaError::DuplicateVariantKey {
                attr,
                ..
            } => {
                let mut text = String::from_str("duplicate key `");
                text.append(attrs[*attr].key.as_str());
                text.append("`");
                text
            },
            SchemaError::MissingAppType => String::from_str("missing `app_type`"),
            SchemaError::NoVariants => String::from_str("no variants"),
            SchemaError::MissingCode { .. } => String::from_str("missing `code`"),
            SchemaError::EmptyCode { .. } => String::from_str("empty `code`"),
            SchemaError::MissingAppCode { .. } => String::from_str("missing `app_code`"),
        }
    }

    /// Whether the entry that the defect points at, if any, is in `attrs`.
    fn points_into(&self, attrs: &Vec<Attr>) -> (inside: bool)
        ensures
            inside == self.attr_fits(attrs_view(attrs@)),
    {
        match self.attr() {
            Some(attr) => attr < attrs.len(),
            None => true,
        }
    }

    /// Writes the diagnostic line for a defect found in `decl`: it names the
    /// taxonomy and the variant at fault, and says what is wrong. A defect
    /// that points at a variant or an entry which `decl` does not have is
    /// not one of `decl`, and gets no line.
    pub fn describe(&self, decl: &TaxonomyDecl) -> (line: Option<String>)
        ensures
            match line {
                Some(text) => self.fits(decl@) && text@ == self.describe_spec(decl@),
                None => !self.fits(decl@),
            },
    {
        let mut line = decl.name.clone();
        match self.variant() {
            Some(variant) => {
                if variant >= decl.variants.len() {
                    return None;
                }
                let at = &decl.variants[variant];
                if !self.points_into(&at.attrs) {
                    return None;
                }
                line.append("::");
                line.append(at.name.as_str());
                line.append(": ");
                let complaint = self.complaint(&at.attrs);
                line.append(complaint.as_str());
            },
            None => {
                if !self.points_into(&decl.attrs) {
                    return None;
                }
                line.append(": ");
                let complaint = self.complaint(&decl.attrs);
                line.append(complaint.as_str());
            },
        }
        Some(line)
    }
}

} // verus!

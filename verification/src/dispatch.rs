//! From a validated taxonomy to records.
//!
//! A dispatch table holds one branch for each variant of a taxonomy, in
//! declared order, and nothing else: there is no branch to fall back on.
//! Each branch holds what a record of its variant is built from, the code
//! being the taxonomy's prefix followed by the variant's short code.

use crate::app_code::AppCode;
use crate::error_info::{record_spec, AppCodeError, ErrorInfo, ErrorInfoView};
use crate::fingerprint::fingerprint_spec;
use crate::schema::{Taxonomy, TaxonomyView, VariantSpec, VariantSpecView};
use crate::text::same_text;
use vstd::prelude::*;
use vstd::string::StringExecFns;

verus! {

/// What the records of one variant are built from.
pub struct Branch {
    /// The variant's name.
    pub variant: String,
    pub app_code: String,
    /// The taxonomy's prefix followed by the variant's short code.
    pub code: String,
    pub client_msg: String,
}

/// The branches of a taxonomy, one for each variant, in declared order.
pub struct Dispatch {
    /// The name of the type that application codes are read into.
    pub app_code_type: String,
    pub branches: Vec<Branch>,
}

/// A branch as a mathematical value.
pub struct BranchView {
    pub variant: Seq<char>,
    pub app_code: Seq<char>,
    pub code: Seq<char>,
    pub client_msg: Seq<char>,
}

/// A dispatch table as a mathematical value.
pub struct DispatchView {
    pub app_code_type: Seq<char>,
    pub branches: Seq<BranchView>,
}

impl View for Branch {
    type V = BranchView;

    open spec fn view(&self) -> BranchView {
        BranchView {
            variant: self.variant@,
            app_code: self.app_code@,
            code: self.code@,
            client_msg: self.client_msg@,
        }
    }
}

impl View for Dispatch {
    type V = DispatchView;

    open spec fn view(&self) -> DispatchView {
        DispatchView {
            app_code_type: self.app_code_type@,
            branches: self.branches@.map_values(|b: Branch| b@),
        }
    }
}

/// The branch of a variant under a prefix.
pub open spec fn branch_spec(prefix: Seq<char>, v: VariantSpecView) -> BranchView {
    BranchView {
        variant: v.name,
        app_code: v.app_code,
        code: prefix + v.short_code,
        client_msg: v.client_msg,
    }
}

/// The dispatch table of a taxonomy.
pub open spec fn dispatch_spec(t: TaxonomyView) -> DispatchView {
    DispatchView {
        app_code_type: t.app_code_type,
        branches: t.variants.map_values(|v: VariantSpecView| branch_spec(t.prefix, v)),
    }
}

/// A string as `{:?}` writes it: as a string literal, in double quotes and
/// with escapes.
pub uninterp spec fn debug_text(text: Seq<char>) -> Seq<char>;

/// The match arms of the given branches of the type `name`, in their order.
pub open spec fn arms_source(name: Seq<char>, branches: Seq<BranchView>) -> Seq<char>
    decreases branches.len(),
{
    if branches.len() == 0 {
        Seq::empty()
    } else {
        arms_source(name, branches.drop_last()) + branches.last().arm_source(name)
    }
}

impl BranchView {
    /// Whether the branch's application code reads as a `T`.
    pub open spec fn readable<T: AppCode>(self) -> bool {
        T::parse_spec(self.app_code) is Some
    }

    /// The match arm of this branch in the source of the type `name`: it
    /// takes every value of the variant and builds the record from the
    /// branch's application code, code and client message, written as
    /// literals, and from the value's rendered message.
    pub open spec fn arm_source(self, name: Seq<char>) -> Seq<char> {
        name + "::"@ + self.variant + " { .. } => ::error_code::ErrorInfo::new("@ + debug_text(
            self.app_code,
        ) + ", "@ + debug_text(self.code) + ", "@ + debug_text(self.client_msg)
            + ", ::std::string::ToString::to_string(self)),\n"@
    }

    /// The record that the branch builds for a rendered message, where its
    /// application code reads as a `T`.
    pub open spec fn record<T: AppCode>(self, server_msg: Seq<char>) -> ErrorInfoView<T> {
        record_spec(T::parse_spec(self.app_code)->0, self.code, self.client_msg, server_msg)
    }
}

impl DispatchView {
    /// The source of the `ToErrorInfo` impl of the type `name`: the
    /// application code type, and a match with one arm for each branch, in
    /// the table's order, and no other arm.
    pub open spec fn impl_source(self, name: Seq<char>) -> Seq<char> {
        "impl ::error_code::ToErrorInfo for "@ + name + " {\ntype T = "@ + self.app_code_type
            + ";\nfn to_error_info(&self) -> ::error_code::ErrorInfo<Self::T> {\nmatch self {\n"@
            + arms_source(name, self.branches) + "}\n}\n}\n"@
    }

    /// Whether every branch's application code reads as a `T`.
    pub open spec fn readable<T: AppCode>(self) -> bool {
        forall|i: int| 0 <= i < self.branches.len() ==> (#[trigger] self.branches[i]).readable::<T>()
    }
}

/// Formats a string with `{:?}`, that is through `str`'s implementation of
/// `std::fmt::Debug`, which writes a string as a string literal. Trusted:
/// what is written depends on the string alone.
#[verifier::external_body]
fn quoted(text: &str) -> (literal: String)
    ensures
        literal@ == debug_text(text@),
{
    format!("{:?}", text)
}

impl Branch {
    /// Builds the branch of a variant under a prefix.
    pub fn generate(prefix: &str, variant: &VariantSpec) -> (branch: Branch)
        ensures
            branch@ == branch_spec(prefix@, variant@),
    {
        let mut code = String::from_str(prefix);
        code.append(variant.short_code.as_str());
        Branch {
            variant: variant.name.clone(),
            app_code: variant.app_code.clone(),
            code,
            client_msg: variant.client_msg.clone(),
        }
    }

    /// Writes the match arm of this branch in the source of the type `name`.
    pub fn emit_arm(&self, name: &str) -> (arm: String)
        ensures
            arm@ == self@.arm_source(name@),
    {
        let mut arm = String::from_str(name);
        arm.append("::");
        arm.append(self.variant.as_str());
        arm.append(" { .. } => ::error_code::ErrorInfo::new(");
        arm.append(quoted(self.app_code.as_str()).as_str());
        arm.append(", ");
        arm.append(quoted(self.code.as_str()).as_str());
        arm.append(", ");
        arm.append(quoted(self.client_msg.as_str()).as_str());
        arm.append(", ::std::string::ToString::to_string(self)),\n");
        arm
    }

    /// Builds the record of this branch for the rendered message of an error
    /// value. Where the application code does not read as a `T`, no record is
    /// built and the code's text is reported.
    pub fn to_error_info<T: AppCode>(&self, server_msg: String) -> (built: Result<
        ErrorInfo<T>,
        AppCodeError,
    >)
        ensures
            match built {
                Ok(info) => self@.readable::<T>() && info@ == self@.record::<T>(server_msg@),
                Err(e) => !self@.readable::<T>() && e.app_code@ == self@.app_code,
            },
    {
        ErrorInfo::try_new(
            self.app_code.as_str(),
            self.code.as_str(),
            self.client_msg.as_str(),
            server_msg,
        )
    }
}

impl Dispatch {
    /// Builds the dispatch table of a taxonomy: one branch for each variant,
    /// in declared order.
    pub fn generate(taxonomy: &Taxonomy) -> (dispatch: Dispatch)
        ensures
            dispatch@ == dispatch_spec(taxonomy@),
    {
        let mut branches: Vec<Branch> = Vec::new();
        let mut i: usize = 0;
        while i < taxonomy.variants.len()
            invariant
                i <= taxonomy.variants.len(),
                branches.len() == i,
                forall|j: int|
                    0 <= j < i ==> (#[trigger] branches[j])@ == branch_spec(
                        taxonomy.prefix@,
                        taxonomy.variants[j]@,
                    ),
            decreases taxonomy.variants.len() - i,
        {
            branches.push(Branch::generate(taxonomy.prefix.as_str(), &taxonomy.variants[i]));
            i = i + 1;
        }
        let dispatch = Dispatch { app_code_type: taxonomy.app_code_type.clone(), branches };
        assert(dispatch@.branches =~= dispatch_spec(taxonomy@).branches);
        dispatch
    }

    /// Writes the table out as the source of the `ToErrorInfo` impl of the
    /// type `name`: a match on the value with one arm for each branch, in the
    /// table's order. No arm takes what the others leave, so a variant
    /// without a branch does not compile.
    pub fn emit(&self, name: &str) -> (source: String)
        ensures
            source@ == self@.impl_source(name@),
    {
        let mut source = String::from_str("impl ::error_code::ToErrorInfo for ");
        source.append(name);
        source.append(" {\ntype T = ");
        source.append(self.app_code_type.as_str());
        source.append(
            ";\nfn to_error_info(&self) -> ::error_code::ErrorInfo<Self::T> {\nmatch self {\n",
        );
        let ghost head = source@;
        let mut i: usize = 0;
        while i < self.branches.len()
            invariant
                i <= self.branches.len(),
                source@ == head + arms_source(name@, self@.branches.take(i as int)),
            decreases self.branches.len() - i,
        {
            proof {
                let upto = self@.branches.take(i + 1);
                assert(upto.drop_last() =~= self@.branches.take(i as int));
            }
            let arm = self.branches[i].emit_arm(name);
            source.append(arm.as_str());
            i = i + 1;
        }
        assert(self@.branches.take(i as int) =~= self@.branches);
        source.append("}\n}\n}\n");
        source
    }

    /// The position of the first branch for the variant of the given name.
    pub fn position(&self, variant: &str) -> (found: Option<usize>)
        ensures
            match found {
                Some(i) => i < self@.branches.len() && self@.branches[i as int].variant == variant@
                    && forall|j: int| 0 <= j < i ==> self@.branches[j].variant != variant@,
                None => forall|j: int|
                    0 <= j < self@.branches.len() ==> self@.branches[j].variant != variant@,
            },
    {
        let mut i: usize = 0;
        while i < self.branches.len()
            invariant
                i <= self.branches.len(),
                forall|j: int| 0 <= j < i ==> self@.branches[j].variant != variant@,
            decreases self.branches.len() - i,
        {
            if same_text(self.branches[i].variant.as_str(), variant) {
                return Some(i);
            }
            i = i + 1;
        }
        None
    }

    /// Builds the record for an error value of the variant at position
    /// `variant`, given the value's rendered message. Where the variant's
    /// application code does not read as a `T`, no record is built and the
    /// code's text is reported.
    pub fn to_error_info<T: AppCode>(&self, variant: usize, server_msg: String) -> (built: Result<
        ErrorInfo<T>,
        AppCodeError,
    >)
        requires
            variant < self@.branches.len(),
        ensures
            match built {
                Ok(info) => self@.branches[variant as int].readable::<T>() && info@
                    == self@.branches[variant as int].record::<T>(server_msg@),
                Err(e) => !self@.branches[variant as int].readable::<T>() && e.app_code@
                    == self@.branches[variant as int].app_code,
            },
    {
        self.branches[variant].to_error_info(server_msg)
    }

    /// Looks for a branch whose application code does not read as a `T`, and
    /// gives the position of the first. With none found, a record can be
    /// built for every variant.
    pub fn first_unreadable<T: AppCode>(&self) -> (found: Option<usize>)
        ensures
            match found {
                Some(i) => i < self@.branches.len() && !self@.branches[i as int].readable::<T>()
                    && forall|j: int| 0 <= j < i ==> (#[trigger] self@.branches[j]).readable::<T>(),
                None => self@.readable::<T>(),
            },
    {
        let mut i: usize = 0;
        while i < self.branches.len()
            invariant
                i <= self.branches.len(),
                forall|j: int| 0 <= j < i ==> (#[trigger] self@.branches[j]).readable::<T>(),
            decreases self.branches.len() - i,
        {
            if T::parse(self.branches[i].app_code.as_str()).is_none() {
                return Some(i);
            }
            i = i + 1;
        }
        None
    }
}

/// The record of a variant carries the taxonomy's prefix followed by the
/// variant's short code as its code, the variant's declared client message,
/// the rendered message, and the fingerprint of the rendered message. What it
/// shows a client is the declared client message or, where that is empty, the
/// rendered message.
pub proof fn lemma_record_of_variant<T: AppCode>(t: TaxonomyView, variant: int, server_msg: Seq<char>)
    requires
        0 <= variant < t.variants.len(),
    ensures
        dispatch_spec(t).branches.len() == t.variants.len(),
        ({
            let v = t.variants[variant];
            let info = dispatch_spec(t).branches[variant].record::<T>(server_msg);
            &&& info.code == t.prefix + v.short_code
            &&& info.client_msg == v.client_msg
            &&& info.server_msg == server_msg
            &&& info.hash == fingerprint_spec(server_msg)
            &&& info.wf()
            &&& v.client_msg.len() > 0 ==> info.client_body() == v.client_msg
            &&& v.client_msg.len() == 0 ==> info.client_body() == server_msg
        }),
{
}

/// In a dispatch table whose application codes all read as a `T`, every
/// branch builds a record.
pub proof fn lemma_readable_dispatch_is_total<T: AppCode>(d: DispatchView, variant: int)
    requires
        d.readable::<T>(),
        0 <= variant < d.branches.len(),
    ensures
        d.branches[variant].readable::<T>(),
{
}

} // verus!

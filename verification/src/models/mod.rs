//! Models are the "atom" datatypes for Basis. They are the records that
//! transactions create, update and delete, and that the results of a
//! transaction list as modifications.

pub mod lib;
pub mod ids;
pub mod vf;
pub mod user;
pub mod company;
pub mod process;
pub mod resource;
pub mod agreement;
pub mod occupation;
pub mod currency;
pub mod region;
pub mod process_spec;
pub mod resource_spec;
pub mod commitment;
pub mod intent;
pub mod member;
pub mod company_member;
pub mod account;
pub mod cost_tag;
pub mod labor;
pub mod event;
pub mod resource_tag;

use crate::error::Error;
use crate::models::account::{Account, AccountView};
use crate::models::agreement::{Agreement, AgreementView};
use crate::models::commitment::{Commitment, CommitmentView};
use crate::models::company::{Company, CompanyView};
use crate::models::company_member::{CompanyMember, CompanyMemberView};
use crate::models::currency::{Currency, CurrencyView};
use crate::models::event::{Event, EventView};
use crate::models::intent::{Intent, IntentView};
use crate::models::member::{Member, MemberView};
use crate::models::occupation::{Occupation, OccupationView};
use crate::models::process::{Process, ProcessView};
use crate::models::process_spec::{ProcessSpec, ProcessSpecView};
use crate::models::region::{Region, RegionView};
use crate::models::resource::{Resource, ResourceView};
use crate::models::resource_spec::{ResourceSpec, ResourceSpecView};
use crate::models::user::{User, UserView};
use vstd::prelude::*;

verus! {

/// An operation to perform on a model.
#[derive(Clone, Copy, Debug, PartialEq, Eq, Structural)]
pub enum Op {
    /// Create the model
    Create,
    /// Update the model
    Update,
    /// Delete the model
    Delete,
}

/// Any model, so that a result can list modifications of models of any type.
#[derive(Debug, PartialEq)]
pub enum Model {
    Account(Account),
    Agreement(Agreement),
    Commitment(Commitment),
    Company(Company),
    CompanyMember(CompanyMember),
    Currency(Currency),
    Event(Event),
    Intent(Intent),
    Member(Member),
    Occupation(Occupation),
    Process(Process),
    ProcessSpec(ProcessSpec),
    Region(Region),
    Resource(Resource),
    ResourceSpec(ResourceSpec),
    User(User),
}

/// What a model holds.
pub enum ModelView {
    Account(AccountView),
    Agreement(AgreementView),
    Commitment(CommitmentView),
    Company(CompanyView),
    CompanyMember(CompanyMemberView),
    Currency(CurrencyView),
    Event(EventView),
    Intent(IntentView),
    Member(MemberView),
    Occupation(OccupationView),
    Process(ProcessView),
    ProcessSpec(ProcessSpecView),
    Region(RegionView),
    Resource(ResourceView),
    ResourceSpec(ResourceSpecView),
    User(UserView),
}

impl View for Model {
    type V = ModelView;

    open spec fn view(&self) -> ModelView {
        match self {
            Model::Account(x) => ModelView::Account(x@),
            Model::Agreement(x) => ModelView::Agreement(x@),
            Model::Commitment(x) => ModelView::Commitment(x@),
            Model::Company(x) => ModelView::Company(x@),
            Model::CompanyMember(x) => ModelView::CompanyMember(x@),
            Model::Currency(x) => ModelView::Currency(x@),
            Model::Event(x) => ModelView::Event(x@),
            Model::Intent(x) => ModelView::Intent(x@),
            Model::Member(x) => ModelView::Member(x@),
            Model::Occupation(x) => ModelView::Occupation(x@),
            Model::Process(x) => ModelView::Process(x@),
            Model::ProcessSpec(x) => ModelView::ProcessSpec(x@),
            Model::Region(x) => ModelView::Region(x@),
            Model::Resource(x) => ModelView::Resource(x@),
            Model::ResourceSpec(x) => ModelView::ResourceSpec(x@),
            Model::User(x) => ModelView::User(x@),
        }
    }
}

impl Clone for Model {
    fn clone(&self) -> (r: Model)
        ensures
            r@ == self@,
    {
        match self {
            Model::Account(x) => Model::Account(x.clone()),
            Model::Agreement(x) => Model::Agreement(x.clone()),
            Model::Commitment(x) => Model::Commitment(x.clone()),
            Model::Company(x) => Model::Company(x.clone()),
            Model::CompanyMember(x) => Model::CompanyMember(x.clone()),
            Model::Currency(x) => Model::Currency(x.clone()),
            Model::Event(x) => Model::Event(x.clone()),
            Model::Intent(x) => Model::Intent(x.clone()),
            Model::Member(x) => Model::Member(x.clone()),
            Model::Occupation(x) => Model::Occupation(x.clone()),
            Model::Process(x) => Model::Process(x.clone()),
            Model::ProcessSpec(x) => Model::ProcessSpec(x.clone()),
            Model::Region(x) => Model::Region(x.clone()),
            Model::Resource(x) => Model::Resource(x.clone()),
            Model::ResourceSpec(x) => Model::ResourceSpec(x.clone()),
            Model::User(x) => Model::User(x.clone()),
        }
    }
}

/// A model type that can be taken back out of a `Model`.
pub trait FromModel: Sized {
    /// Whether the model is of this type.
    spec fn is_model(m: ModelView) -> bool;

    /// A value of this type, as a model.
    spec fn as_model(self) -> ModelView;

    /// The model, where it is of this type.
    fn from_model(m: Model) -> (r: Option<Self>)
        ensures
            r is Some <==> Self::is_model(m@),
            r matches Some(x) ==> x.as_model() == m@,
    ;
}

impl FromModel for Account {
    open spec fn is_model(m: ModelView) -> bool {
        m is Account
    }

    open spec fn as_model(self) -> ModelView {
        ModelView::Account(self@)
    }

    fn from_model(m: Model) -> (r: Option<Account>)
        ensures
            r matches Some(x) ==> ModelView::Account(x@) == m@,
    {
        match m {
            Model::Account(x) => Some(x),
            _ => None,
        }
    }
}

impl FromModel for Agreement {
    open spec fn is_model(m: ModelView) -> bool {
        m is Agreement
    }

    open spec fn as_model(self) -> ModelView {
        ModelView::Agreement(self@)
    }

    fn from_model(m: Model) -> (r: Option<Agreement>)
        ensures
            r matches Some(x) ==> ModelView::Agreement(x@) == m@,
    {
        match m {
            Model::Agreement(x) => Some(x),
            _ => None,
        }
    }
}

impl FromModel for Commitment {
    open spec fn is_model(m: ModelView) -> bool {
        m is Commitment
    }

    open spec fn as_model(self) -> ModelView {
        ModelView::Commitment(self@)
    }

    fn from_model(m: Model) -> (r: Option<Commitment>)
        ensures
            r matches Some(x) ==> ModelView::Commitment(x@) == m@,
    {
        match m {
            Model::Commitment(x) => Some(x),
            _ => None,
        }
    }
}

impl FromModel for Company {
    open spec fn is_model(m: ModelView) -> bool {
        m is Company
    }

    open spec fn as_model(self) -> ModelView {
        ModelView::Company(self@)
    }

    fn from_model(m: Model) -> (r: Option<Company>)
        ensures
            r matches Some(x) ==> ModelView::Company(x@) == m@,
    {
        match m {
            Model::Company(x) => Some(x),
            _ => None,
        }
    }
}

impl FromModel for CompanyMember {
    open spec fn is_model(m: ModelView) -> bool {
        m is CompanyMember
    }

    open spec fn as_model(self) -> ModelView {
        ModelView::CompanyMember(self@)
    }

    fn from_model(m: Model) -> (r: Option<CompanyMember>)
        ensures
            r matches Some(x) ==> ModelView::CompanyMember(x@) == m@,
    {
        match m {
            Model::CompanyMember(x) => Some(x),
            _ => None,
        }
    }
}

impl FromModel for Currency {
    open spec fn is_model(m: ModelView) -> bool {
        m is Currency
    }

    open spec fn as_model(self) -> ModelView {
        ModelView::Currency(self@)
    }

    fn from_model(m: Model) -> (r: Option<Currency>)
        ensures
            r matches Some(x) ==> ModelView::Currency(x@) == m@,
    {
        match m {
            Model::Currency(x) => Some(x),
            _ => None,
        }
    }
}

impl FromModel for Event {
    open spec fn is_model(m: ModelView) -> bool {
        m is Event
    }

    open spec fn as_model(self) -> ModelView {
        ModelView::Event(self@)
    }

    fn from_model(m: Model) -> (r: Option<Event>)
        ensures
            r matches Some(x) ==> ModelView::Event(x@) == m@,
    {
        match m {
            Model::Event(x) => Some(x),
            _ => None,
        }
    }
}

impl FromModel for Intent {
    open spec fn is_model(m: ModelView) -> bool {
        m is Intent
    }

    open spec fn as_model(self) -> ModelView {
        ModelView::Intent(self@)
    }

    fn from_model(m: Model) -> (r: Option<Intent>)
        ensures
            r matches Some(x) ==> ModelView::Intent(x@) == m@,
    {
        match m {
            Model::Intent(x) => Some(x),
            _ => None,
        }
    }
}

impl FromModel for Member {
    open spec fn is_model(m: ModelView) -> bool {
        m is Member
    }

    open spec fn as_model(self) -> ModelView {
        ModelView::Member(self@)
    }

    fn from_model(m: Model) -> (r: Option<Member>)
        ensures
            r matches Some(x) ==> ModelView::Member(x@) == m@,
    {
        match m {
            Model::Member(x) => Some(x),
            _ => None,
        }
    }
}

impl FromModel for Occupation {
    open spec fn is_model(m: ModelView) -> bool {
        m is Occupation
    }

    open spec fn as_model(self) -> ModelView {
        ModelView::Occupation(self@)
    }

    fn from_model(m: Model) -> (r: Option<Occupation>)
        ensures
            r matches Some(x) ==> ModelView::Occupation(x@) == m@,
    {
        match m {
            Model::Occupation(x) => Some(x),
            _ => None,
        }
    }
}

impl FromModel for Process {
    open spec fn is_model(m: ModelView) -> bool {
        m is Process
    }

    open spec fn as_model(self) -> ModelView {
        ModelView::Process(self@)
    }

    fn from_model(m: Model) -> (r: Option<Process>)
        ensures
            r matches Some(x) ==> ModelView::Process(x@) == m@,
    {
        match m {
            Model::Process(x) => Some(x),
            _ => None,
        }
    }
}

impl FromModel for ProcessSpec {
    open spec fn is_model(m: ModelView) -> bool {
        m is ProcessSpec
    }

    open spec fn as_model(self) -> ModelView {
        ModelView::ProcessSpec(self@)
    }

    fn from_model(m: Model) -> (r: Option<ProcessSpec>)
        ensures
            r matches Some(x) ==> ModelView::ProcessSpec(x@) == m@,
    {
        match m {
            Model::ProcessSpec(x) => Some(x),
            _ => None,
        }
    }
}

impl FromModel for Region {
    open spec fn is_model(m: ModelView) -> bool {
        m is Region
    }

    open spec fn as_model(self) -> ModelView {
        ModelView::Region(self@)
    }

    fn from_model(m: Model) -> (r: Option<Region>)
        ensures
            r matches Some(x) ==> ModelView::Region(x@) == m@,
    {
        match m {
            Model::Region(x) => Some(x),
            _ => None,
        }
    }
}

impl FromModel for Resource {
    open spec fn is_model(m: ModelView) -> bool {
        m is Resource
    }

    open spec fn as_model(self) -> ModelView {
        ModelView::Resource(self@)
    }

    fn from_model(m: Model) -> (r: Option<Resource>)
        ensures
            r matches Some(x) ==> ModelView::Resource(x@) == m@,
    {
        match m {
            Model::Resource(x) => Some(x),
            _ => None,
        }
    }
}

impl FromModel for ResourceSpec {
    open spec fn is_model(m: ModelView) -> bool {
        m is ResourceSpec
    }

    open spec fn as_model(self) -> ModelView {
        ModelView::ResourceSpec(self@)
    }

    fn from_model(m: Model) -> (r: Option<ResourceSpec>)
        ensures
            r matches Some(x) ==> ModelView::ResourceSpec(x@) == m@,
    {
        match m {
            Model::ResourceSpec(x) => Some(x),
            _ => None,
        }
    }
}

impl FromModel for User {
    open spec fn is_model(m: ModelView) -> bool {
        m is User
    }

    open spec fn as_model(self) -> ModelView {
        ModelView::User(self@)
    }

    fn from_model(m: Model) -> (r: Option<User>)
        ensures
            r matches Some(x) ==> ModelView::User(x@) == m@,
    {
        match m {
            Model::User(x) => Some(x),
            _ => None,
        }
    }
}

/// What a modification holds.
pub struct ModificationView {
    pub op: Op,
    pub model: ModelView,
}

/// A modification: an operation to perform on a model.
#[derive(Debug, PartialEq)]
pub struct Modification {
    op: Op,
    model: Model,
}

impl View for Modification {
    type V = ModificationView;

    closed spec fn view(&self) -> ModificationView {
        ModificationView { op: self.op, model: self.model@ }
    }
}

impl Clone for Modification {
    fn clone(&self) -> (r: Modification)
        ensures
            r@ == self@,
    {
        Modification { op: self.op, model: self.model.clone() }
    }
}

impl Modification {
    /// Create a new modification.
    pub fn new(op: Op, model: Model) -> (r: Modification)
        ensures
            r@ == (ModificationView { op, model: model@ }),
    {
        Modification { op, model }
    }

    /// The operation and the model.
    pub fn into_pair(self) -> (r: (Op, Model))
        ensures
            r.0 == self@.op,
            r.1@ == self@.model,
    {
        (self.op, self.model)
    }

    /// The model, as the type asked for, where the operation is the one
    /// expected (`OpMismatch` if not) and the model is of that type
    /// (`WrongModelType` if not).
    pub fn expect_op<T: FromModel>(self, verify_op: Op) -> (r: Result<T, Error>)
        ensures
            r is Ok <==> (self@.op == verify_op && T::is_model(self@.model)),
            self@.op != verify_op ==> r == Err::<T, Error>(Error::OpMismatch),
            (self@.op == verify_op && !T::is_model(self@.model)) ==> r == Err::<T, Error>(
                Error::WrongModelType,
            ),
            r matches Ok(x) ==> x.as_model() == self@.model,
    {
        let (op, model) = self.into_pair();
        if op != verify_op {
            return Err(Error::OpMismatch);
        }
        match T::from_model(model) {
            Some(m) => Ok(m),
            None => Err(Error::WrongModelType),
        }
    }
}

/// A list of modifications: what a transaction asks the storage layer to do.
#[derive(Debug, PartialEq)]
pub struct Modifications {
    modifications: Vec<Modification>,
}

/// The views of a list of modifications.
pub open spec fn mods_view(v: Seq<Modification>) -> Seq<ModificationView> {
    v.map_values(|m: Modification| m@)
}

impl View for Modifications {
    type V = Seq<ModificationView>;

    closed spec fn view(&self) -> Seq<ModificationView> {
        mods_view(self.modifications@)
    }
}

impl Modifications {
    /// An empty list.
    pub fn new() -> (r: Modifications)
        ensures
            r@ == Seq::<ModificationView>::empty(),
    {
        Modifications { modifications: Vec::new() }
    }

    /// A list of one modification.
    pub fn new_single(op: Op, model: Model) -> (r: Modifications)
        ensures
            r@ == seq![ModificationView { op, model: model@ }],
    {
        let mut mods = Modifications::new();
        mods.push(op, model);
        mods
    }

    /// The modifications.
    pub fn into_vec(self) -> (r: Vec<Modification>)
        ensures
            mods_view(r@) == self@,
    {
        self.modifications
    }

    /// The number of modifications.
    pub fn len(&self) -> (r: usize)
        ensures
            r == self@.len(),
    {
        self.modifications.len()
    }

    /// Add a modification.
    pub fn push_raw(&mut self, modification: Modification)
        ensures
            final(self)@ == old(self)@.push(modification@),
    {
        self.modifications.push(modification);
        proof {
            assert(mods_view(self.modifications@) =~= mods_view(old(self).modifications@).push(
                modification@,
            ));
        }
    }

    /// Add an operation on a model.
    pub fn push(&mut self, op: Op, model: Model)
        ensures
            final(self)@ == old(self)@.push(ModificationView { op, model: model@ }),
    {
        self.push_raw(Modification::new(op, model));
    }

    /// Add all of another list's modifications, in order.
    pub fn append(&mut self, other: Modifications)
        ensures
            final(self)@ == old(self)@ + other@,
    {
        let mut rest = other.into_vec();
        let ghost start = self@;
        let ghost whole = mods_view(rest@);
        while rest.len() > 0
            invariant
                self@ + mods_view(rest@) == start + whole,
            decreases rest.len(),
        {
            let ghost before = self@;
            let ghost old_rest = rest@;
            let m = rest.remove(0);
            proof {
                assert(mods_view(old_rest) =~= seq![m@] + mods_view(rest@));
            }
            self.push_raw(m);
            proof {
                assert(self@ + mods_view(rest@) =~= before + mods_view(old_rest));
            }
        }
        proof {
            assert(mods_view(rest@) =~= Seq::<ModificationView>::empty());
            assert(self@ =~= self@ + mods_view(rest@));
        }
    }
}

} // verus!

//! The ID types that models link to each other with. Each is a string; two
//! IDs are the same when their strings are.

use crate::models::lib::basis_model::ModelID;
use vstd::prelude::*;

verus! {

/// A lower-case hexadecimal digit.
pub open spec fn is_lower_hex(c: char) -> bool {
    ('0' <= c && c <= '9') || ('a' <= c && c <= 'f')
}

/// The hyphenated, lower-case text of a random (version 4, RFC 4122 variant)
/// UUID: 36 characters, hyphens at 8, 13, 18 and 23, hex digits elsewhere,
/// the version digit `4` at 14 and a variant digit of `8`, `9`, `a` or `b` at
/// 19.
pub open spec fn is_uuid_v4(s: Seq<char>) -> bool {
    &&& s.len() == 36
    &&& forall|i: int|
        0 <= i < 36 ==> if i == 8 || i == 13 || i == 18 || i == 23 {
            #[trigger] s[i] == '-'
        } else {
            is_lower_hex(s[i])
        }
    &&& s[14] == '4'
    &&& (s[19] == '8' || s[19] == '9' || s[19] == 'a' || s[19] == 'b')
}

/// A new random id: `uuid::Uuid::new_v4`, written out by its `hyphenated`
/// form. Which id comes back rests on chance; what is claimed is what holds
/// of every outcome: `new_v4` masks in the version and variant bits, and the
/// hyphenated form writes the sixteen bytes as lower-case hex in groups of
/// 8-4-4-4-12 characters.
#[verifier::external_body]
fn random_uuid() -> (r: String)
    ensures
        is_uuid_v4(r@),
{
    uuid::Uuid::new_v4().hyphenated().to_string()
}


/// The ID of a account.
#[derive(Debug, Eq, Hash)]
pub struct AccountID {
    id: String,
}

impl View for AccountID {
    type V = Seq<char>;

    closed spec fn view(&self) -> Seq<char> {
        self.id@
    }
}

impl AccountID {
    /// Create an id from a string.
    pub fn new(id: &str) -> (r: Self)
        ensures
            r@ == id@,
    {
        AccountID { id: id.to_string() }
    }

    /// Create an id that owns the given string.
    pub fn from_string(id: String) -> (r: Self)
        ensures
            r@ == id@,
    {
        AccountID { id }
    }

    /// Create a new random id (UUIDv4).
    pub fn create() -> (r: Self)
        ensures
            is_uuid_v4(r@),
    {
        AccountID { id: random_uuid() }
    }

    /// The id's string.
    pub fn as_string(&self) -> (r: &String)
        ensures
            r@ == self@,
    {
        &self.id
    }

    /// The id's string.
    pub fn as_str(&self) -> (r: &str)
        ensures
            r@ == self@,
    {
        self.id.as_str()
    }

    /// Convert this id to a string.
    pub fn to_string(self) -> (r: String)
        ensures
            r@ == self@,
    {
        self.id
    }
}

impl Clone for AccountID {
    fn clone(&self) -> (r: Self)
        ensures
            r == *self,
    {
        AccountID { id: self.id.clone() }
    }
}

impl PartialEq for AccountID {
    fn eq(&self, other: &Self) -> (r: bool) {
        self.id == other.id
    }
}

impl vstd::std_specs::cmp::PartialEqSpecImpl for AccountID {
    open spec fn obeys_eq_spec() -> bool {
        true
    }

    open spec fn eq_spec(&self, other: &Self) -> bool {
        self@ == other@
    }
}

impl ModelID for AccountID {}


/// The ID of a agreement.
#[derive(Debug, Eq, Hash)]
pub struct AgreementID {
    id: String,
}

impl View for AgreementID {
    type V = Seq<char>;

    closed spec fn view(&self) -> Seq<char> {
        self.id@
    }
}

impl AgreementID {
    /// Create an id from a string.
    pub fn new(id: &str) -> (r: Self)
        ensures
            r@ == id@,
    {
        AgreementID { id: id.to_string() }
    }

    /// Create an id that owns the given string.
    pub fn from_string(id: String) -> (r: Self)
        ensures
            r@ == id@,
    {
        AgreementID { id }
    }

    /// Create a new random id (UUIDv4).
    pub fn create() -> (r: Self)
        ensures
            is_uuid_v4(r@),
    {
        AgreementID { id: random_uuid() }
    }

    /// The id's string.
    pub fn as_string(&self) -> (r: &String)
        ensures
            r@ == self@,
    {
        &self.id
    }

    /// The id's string.
    pub fn as_str(&self) -> (r: &str)
        ensures
            r@ == self@,
    {
        self.id.as_str()
    }

    /// Convert this id to a string.
    pub fn to_string(self) -> (r: String)
        ensures
            r@ == self@,
    {
        self.id
    }
}

impl Clone for AgreementID {
    fn clone(&self) -> (r: Self)
        ensures
            r == *self,
    {
        AgreementID { id: self.id.clone() }
    }
}

impl PartialEq for AgreementID {
    fn eq(&self, other: &Self) -> (r: bool) {
        self.id == other.id
    }
}

impl vstd::std_specs::cmp::PartialEqSpecImpl for AgreementID {
    open spec fn obeys_eq_spec() -> bool {
        true
    }

    open spec fn eq_spec(&self, other: &Self) -> bool {
        self@ == other@
    }
}

impl ModelID for AgreementID {}


/// The ID of a commitment.
#[derive(Debug, Eq, Hash)]
pub struct CommitmentID {
    id: String,
}

impl View for CommitmentID {
    type V = Seq<char>;

    closed spec fn view(&self) -> Seq<char> {
        self.id@
    }
}

impl CommitmentID {
    /// Create an id from a string.
    pub fn new(id: &str) -> (r: Self)
        ensures
            r@ == id@,
    {
        CommitmentID { id: id.to_string() }
    }

    /// Create an id that owns the given string.
    pub fn from_string(id: String) -> (r: Self)
        ensures
            r@ == id@,
    {
        CommitmentID { id }
    }

    /// Create a new random id (UUIDv4).
    pub fn create() -> (r: Self)
        ensures
            is_uuid_v4(r@),
    {
        CommitmentID { id: random_uuid() }
    }

    /// The id's string.
    pub fn as_string(&self) -> (r: &String)
        ensures
            r@ == self@,
    {
        &self.id
    }

    /// The id's string.
    pub fn as_str(&self) -> (r: &str)
        ensures
            r@ == self@,
    {
        self.id.as_str()
    }

    /// Convert this id to a string.
    pub fn to_string(self) -> (r: String)
        ensures
            r@ == self@,
    {
        self.id
    }
}

impl Clone for CommitmentID {
    fn clone(&self) -> (r: Self)
        ensures
            r == *self,
    {
        CommitmentID { id: self.id.clone() }
    }
}

impl PartialEq for CommitmentID {
    fn eq(&self, other: &Self) -> (r: bool) {
        self.id == other.id
    }
}

impl vstd::std_specs::cmp::PartialEqSpecImpl for CommitmentID {
    open spec fn obeys_eq_spec() -> bool {
        true
    }

    open spec fn eq_spec(&self, other: &Self) -> bool {
        self@ == other@
    }
}

impl ModelID for CommitmentID {}


/// The ID of a company.
#[derive(Debug, Eq, Hash)]
pub struct CompanyID {
    id: String,
}

impl View for CompanyID {
    type V = Seq<char>;

    closed spec fn view(&self) -> Seq<char> {
        self.id@
    }
}

impl CompanyID {
    /// Create an id from a string.
    pub fn new(id: &str) -> (r: Self)
        ensures
            r@ == id@,
    {
        CompanyID { id: id.to_string() }
    }

    /// Create an id that owns the given string.
    pub fn from_string(id: String) -> (r: Self)
        ensures
            r@ == id@,
    {
        CompanyID { id }
    }

    /// Create a new random id (UUIDv4).
    pub fn create() -> (r: Self)
        ensures
            is_uuid_v4(r@),
    {
        CompanyID { id: random_uuid() }
    }

    /// The id's string.
    pub fn as_string(&self) -> (r: &String)
        ensures
            r@ == self@,
    {
        &self.id
    }

    /// The id's string.
    pub fn as_str(&self) -> (r: &str)
        ensures
            r@ == self@,
    {
        self.id.as_str()
    }

    /// Convert this id to a string.
    pub fn to_string(self) -> (r: String)
        ensures
            r@ == self@,
    {
        self.id
    }
}

impl Clone for CompanyID {
    fn clone(&self) -> (r: Self)
        ensures
            r == *self,
    {
        CompanyID { id: self.id.clone() }
    }
}

impl PartialEq for CompanyID {
    fn eq(&self, other: &Self) -> (r: bool) {
        self.id == other.id
    }
}

impl vstd::std_specs::cmp::PartialEqSpecImpl for CompanyID {
    open spec fn obeys_eq_spec() -> bool {
        true
    }

    open spec fn eq_spec(&self, other: &Self) -> bool {
        self@ == other@
    }
}

impl ModelID for CompanyID {}


/// The ID of a currency.
#[derive(Debug, Eq, Hash)]
pub struct CurrencyID {
    id: String,
}

impl View for CurrencyID {
    type V = Seq<char>;

    closed spec fn view(&self) -> Seq<char> {
        self.id@
    }
}

impl CurrencyID {
    /// Create an id from a string.
    pub fn new(id: &str) -> (r: Self)
        ensures
            r@ == id@,
    {
        CurrencyID { id: id.to_string() }
    }

    /// Create an id that owns the given string.
    pub fn from_string(id: String) -> (r: Self)
        ensures
            r@ == id@,
    {
        CurrencyID { id }
    }

    /// Create a new random id (UUIDv4).
    pub fn create() -> (r: Self)
        ensures
            is_uuid_v4(r@),
    {
        CurrencyID { id: random_uuid() }
    }

    /// The id's string.
    pub fn as_string(&self) -> (r: &String)
        ensures
            r@ == self@,
    {
        &self.id
    }

    /// The id's string.
    pub fn as_str(&self) -> (r: &str)
        ensures
            r@ == self@,
    {
        self.id.as_str()
    }

    /// Convert this id to a string.
    pub fn to_string(self) -> (r: String)
        ensures
            r@ == self@,
    {
        self.id
    }
}

impl Clone for CurrencyID {
    fn clone(&self) -> (r: Self)
        ensures
            r == *self,
    {
        CurrencyID { id: self.id.clone() }
    }
}

impl PartialEq for CurrencyID {
    fn eq(&self, other: &Self) -> (r: bool) {
        self.id == other.id
    }
}

impl vstd::std_specs::cmp::PartialEqSpecImpl for CurrencyID {
    open spec fn obeys_eq_spec() -> bool {
        true
    }

    open spec fn eq_spec(&self, other: &Self) -> bool {
        self@ == other@
    }
}

impl ModelID for CurrencyID {}


/// The ID of a event.
#[derive(Debug, Eq, Hash)]
pub struct EventID {
    id: String,
}

impl View for EventID {
    type V = Seq<char>;

    closed spec fn view(&self) -> Seq<char> {
        self.id@
    }
}

impl EventID {
    /// Create an id from a string.
    pub fn new(id: &str) -> (r: Self)
        ensures
            r@ == id@,
    {
        EventID { id: id.to_string() }
    }

    /// Create an id that owns the given string.
    pub fn from_string(id: String) -> (r: Self)
        ensures
            r@ == id@,
    {
        EventID { id }
    }

    /// Create a new random id (UUIDv4).
    pub fn create() -> (r: Self)
        ensures
            is_uuid_v4(r@),
    {
        EventID { id: random_uuid() }
    }

    /// The id's string.
    pub fn as_string(&self) -> (r: &String)
        ensures
            r@ == self@,
    {
        &self.id
    }

    /// The id's string.
    pub fn as_str(&self) -> (r: &str)
        ensures
            r@ == self@,
    {
        self.id.as_str()
    }

    /// Convert this id to a string.
    pub fn to_string(self) -> (r: String)
        ensures
            r@ == self@,
    {
        self.id
    }
}

impl Clone for EventID {
    fn clone(&self) -> (r: Self)
        ensures
            r == *self,
    {
        EventID { id: self.id.clone() }
    }
}

impl PartialEq for EventID {
    fn eq(&self, other: &Self) -> (r: bool) {
        self.id == other.id
    }
}

impl vstd::std_specs::cmp::PartialEqSpecImpl for EventID {
    open spec fn obeys_eq_spec() -> bool {
        true
    }

    open spec fn eq_spec(&self, other: &Self) -> bool {
        self@ == other@
    }
}

impl ModelID for EventID {}


/// The ID of a intent.
#[derive(Debug, Eq, Hash)]
pub struct IntentID {
    id: String,
}

impl View for IntentID {
    type V = Seq<char>;

    closed spec fn view(&self) -> Seq<char> {
        self.id@
    }
}

impl IntentID {
    /// Create an id from a string.
    pub fn new(id: &str) -> (r: Self)
        ensures
            r@ == id@,
    {
        IntentID { id: id.to_string() }
    }

    /// Create an id that owns the given string.
    pub fn from_string(id: String) -> (r: Self)
        ensures
            r@ == id@,
    {
        IntentID { id }
    }

    /// Create a new random id (UUIDv4).
    pub fn create() -> (r: Self)
        ensures
            is_uuid_v4(r@),
    {
        IntentID { id: random_uuid() }
    }

    /// The id's string.
    pub fn as_string(&self) -> (r: &String)
        ensures
            r@ == self@,
    {
        &self.id
    }

    /// The id's string.
    pub fn as_str(&self) -> (r: &str)
        ensures
            r@ == self@,
    {
        self.id.as_str()
    }

    /// Convert this id to a string.
    pub fn to_string(self) -> (r: String)
        ensures
            r@ == self@,
    {
        self.id
    }
}

impl Clone for IntentID {
    fn clone(&self) -> (r: Self)
        ensures
            r == *self,
    {
        IntentID { id: self.id.clone() }
    }
}

impl PartialEq for IntentID {
    fn eq(&self, other: &Self) -> (r: bool) {
        self.id == other.id
    }
}

impl vstd::std_specs::cmp::PartialEqSpecImpl for IntentID {
    open spec fn obeys_eq_spec() -> bool {
        true
    }

    open spec fn eq_spec(&self, other: &Self) -> bool {
        self@ == other@
    }
}

impl ModelID for IntentID {}


/// The ID of a member.
#[derive(Debug, Eq, Hash)]
pub struct MemberID {
    id: String,
}

impl View for MemberID {
    type V = Seq<char>;

    closed spec fn view(&self) -> Seq<char> {
        self.id@
    }
}

impl MemberID {
    /// Create an id from a string.
    pub fn new(id: &str) -> (r: Self)
        ensures
            r@ == id@,
    {
        MemberID { id: id.to_string() }
    }

    /// Create an id that owns the given string.
    pub fn from_string(id: String) -> (r: Self)
        ensures
            r@ == id@,
    {
        MemberID { id }
    }

    /// Create a new random id (UUIDv4).
    pub fn create() -> (r: Self)
        ensures
            is_uuid_v4(r@),
    {
        MemberID { id: random_uuid() }
    }

    /// The id's string.
    pub fn as_string(&self) -> (r: &String)
        ensures
            r@ == self@,
    {
        &self.id
    }

    /// The id's string.
    pub fn as_str(&self) -> (r: &str)
        ensures
            r@ == self@,
    {
        self.id.as_str()
    }

    /// Convert this id to a string.
    pub fn to_string(self) -> (r: String)
        ensures
            r@ == self@,
    {
        self.id
    }
}

impl Clone for MemberID {
    fn clone(&self) -> (r: Self)
        ensures
            r == *self,
    {
        MemberID { id: self.id.clone() }
    }
}

impl PartialEq for MemberID {
    fn eq(&self, other: &Self) -> (r: bool) {
        self.id == other.id
    }
}

impl vstd::std_specs::cmp::PartialEqSpecImpl for MemberID {
    open spec fn obeys_eq_spec() -> bool {
        true
    }

    open spec fn eq_spec(&self, other: &Self) -> bool {
        self@ == other@
    }
}

impl ModelID for MemberID {}


/// The ID of a occupation.
#[derive(Debug, Eq, Hash)]
pub struct OccupationID {
    id: String,
}

impl View for OccupationID {
    type V = Seq<char>;

    closed spec fn view(&self) -> Seq<char> {
        self.id@
    }
}

impl OccupationID {
    /// Create an id from a string.
    pub fn new(id: &str) -> (r: Self)
        ensures
            r@ == id@,
    {
        OccupationID { id: id.to_string() }
    }

    /// Create an id that owns the given string.
    pub fn from_string(id: String) -> (r: Self)
        ensures
            r@ == id@,
    {
        OccupationID { id }
    }

    /// Create a new random id (UUIDv4).
    pub fn create() -> (r: Self)
        ensures
            is_uuid_v4(r@),
    {
        OccupationID { id: random_uuid() }
    }

    /// The id's string.
    pub fn as_string(&self) -> (r: &String)
        ensures
            r@ == self@,
    {
        &self.id
    }

    /// The id's string.
    pub fn as_str(&self) -> (r: &str)
        ensures
            r@ == self@,
    {
        self.id.as_str()
    }

    /// Convert this id to a string.
    pub fn to_string(self) -> (r: String)
        ensures
            r@ == self@,
    {
        self.id
    }
}

impl Clone for OccupationID {
    fn clone(&self) -> (r: Self)
        ensures
            r == *self,
    {
        OccupationID { id: self.id.clone() }
    }
}

impl PartialEq for OccupationID {
    fn eq(&self, other: &Self) -> (r: bool) {
        self.id == other.id
    }
}

impl vstd::std_specs::cmp::PartialEqSpecImpl for OccupationID {
    open spec fn obeys_eq_spec() -> bool {
        true
    }

    open spec fn eq_spec(&self, other: &Self) -> bool {
        self@ == other@
    }
}

impl ModelID for OccupationID {}


/// The ID of a process.
#[derive(Debug, Eq, Hash)]
pub struct ProcessID {
    id: String,
}

impl View for ProcessID {
    type V = Seq<char>;

    closed spec fn view(&self) -> Seq<char> {
        self.id@
    }
}

impl ProcessID {
    /// Create an id from a string.
    pub fn new(id: &str) -> (r: Self)
        ensures
            r@ == id@,
    {
        ProcessID { id: id.to_string() }
    }

    /// Create an id that owns the given string.
    pub fn from_string(id: String) -> (r: Self)
        ensures
            r@ == id@,
    {
        ProcessID { id }
    }

    /// Create a new random id (UUIDv4).
    pub fn create() -> (r: Self)
        ensures
            is_uuid_v4(r@),
    {
        ProcessID { id: random_uuid() }
    }

    /// The id's string.
    pub fn as_string(&self) -> (r: &String)
        ensures
            r@ == self@,
    {
        &self.id
    }

    /// The id's string.
    pub fn as_str(&self) -> (r: &str)
        ensures
            r@ == self@,
    {
        self.id.as_str()
    }

    /// Convert this id to a string.
    pub fn to_string(self) -> (r: String)
        ensures
            r@ == self@,
    {
        self.id
    }
}

impl Clone for ProcessID {
    fn clone(&self) -> (r: Self)
        ensures
            r == *self,
    {
        ProcessID { id: self.id.clone() }
    }
}

impl PartialEq for ProcessID {
    fn eq(&self, other: &Self) -> (r: bool) {
        self.id == other.id
    }
}

impl vstd::std_specs::cmp::PartialEqSpecImpl for ProcessID {
    open spec fn obeys_eq_spec() -> bool {
        true
    }

    open spec fn eq_spec(&self, other: &Self) -> bool {
        self@ == other@
    }
}

impl ModelID for ProcessID {}


/// The ID of a process specification.
#[derive(Debug, Eq, Hash)]
pub struct ProcessSpecID {
    id: String,
}

impl View for ProcessSpecID {
    type V = Seq<char>;

    closed spec fn view(&self) -> Seq<char> {
        self.id@
    }
}

impl ProcessSpecID {
    /// Create an id from a string.
    pub fn new(id: &str) -> (r: Self)
        ensures
            r@ == id@,
    {
        ProcessSpecID { id: id.to_string() }
    }

    /// Create an id that owns the given string.
    pub fn from_string(id: String) -> (r: Self)
        ensures
            r@ == id@,
    {
        ProcessSpecID { id }
    }

    /// Create a new random id (UUIDv4).
    pub fn create() -> (r: Self)
        ensures
            is_uuid_v4(r@),
    {
        ProcessSpecID { id: random_uuid() }
    }

    /// The id's string.
    pub fn as_string(&self) -> (r: &String)
        ensures
            r@ == self@,
    {
        &self.id
    }

    /// The id's string.
    pub fn as_str(&self) -> (r: &str)
        ensures
            r@ == self@,
    {
        self.id.as_str()
    }

    /// Convert this id to a string.
    pub fn to_string(self) -> (r: String)
        ensures
            r@ == self@,
    {
        self.id
    }
}

impl Clone for ProcessSpecID {
    fn clone(&self) -> (r: Self)
        ensures
            r == *self,
    {
        ProcessSpecID { id: self.id.clone() }
    }
}

impl PartialEq for ProcessSpecID {
    fn eq(&self, other: &Self) -> (r: bool) {
        self.id == other.id
    }
}

impl vstd::std_specs::cmp::PartialEqSpecImpl for ProcessSpecID {
    open spec fn obeys_eq_spec() -> bool {
        true
    }

    open spec fn eq_spec(&self, other: &Self) -> bool {
        self@ == other@
    }
}

impl ModelID for ProcessSpecID {}


/// The ID of a region.
#[derive(Debug, Eq, Hash)]
pub struct RegionID {
    id: String,
}

impl View for RegionID {
    type V = Seq<char>;

    closed spec fn view(&self) -> Seq<char> {
        self.id@
    }
}

impl RegionID {
    /// Create an id from a string.
    pub fn new(id: &str) -> (r: Self)
        ensures
            r@ == id@,
    {
        RegionID { id: id.to_string() }
    }

    /// Create an id that owns the given string.
    pub fn from_string(id: String) -> (r: Self)
        ensures
            r@ == id@,
    {
        RegionID { id }
    }

    /// Create a new random id (UUIDv4).
    pub fn create() -> (r: Self)
        ensures
            is_uuid_v4(r@),
    {
        RegionID { id: random_uuid() }
    }

    /// The id's string.
    pub fn as_string(&self) -> (r: &String)
        ensures
            r@ == self@,
    {
        &self.id
    }

    /// The id's string.
    pub fn as_str(&self) -> (r: &str)
        ensures
            r@ == self@,
    {
        self.id.as_str()
    }

    /// Convert this id to a string.
    pub fn to_string(self) -> (r: String)
        ensures
            r@ == self@,
    {
        self.id
    }
}

impl Clone for RegionID {
    fn clone(&self) -> (r: Self)
        ensures
            r == *self,
    {
        RegionID { id: self.id.clone() }
    }
}

impl PartialEq for RegionID {
    fn eq(&self, other: &Self) -> (r: bool) {
        self.id == other.id
    }
}

impl vstd::std_specs::cmp::PartialEqSpecImpl for RegionID {
    open spec fn obeys_eq_spec() -> bool {
        true
    }

    open spec fn eq_spec(&self, other: &Self) -> bool {
        self@ == other@
    }
}

impl ModelID for RegionID {}


/// The ID of a resource.
#[derive(Debug, Eq, Hash)]
pub struct ResourceID {
    id: String,
}

impl View for ResourceID {
    type V = Seq<char>;

    closed spec fn view(&self) -> Seq<char> {
        self.id@
    }
}

impl ResourceID {
    /// Create an id from a string.
    pub fn new(id: &str) -> (r: Self)
        ensures
            r@ == id@,
    {
        ResourceID { id: id.to_string() }
    }

    /// Create an id that owns the given string.
    pub fn from_string(id: String) -> (r: Self)
        ensures
            r@ == id@,
    {
        ResourceID { id }
    }

    /// Create a new random id (UUIDv4).
    pub fn create() -> (r: Self)
        ensures
            is_uuid_v4(r@),
    {
        ResourceID { id: random_uuid() }
    }

    /// The id's string.
    pub fn as_string(&self) -> (r: &String)
        ensures
            r@ == self@,
    {
        &self.id
    }

    /// The id's string.
    pub fn as_str(&self) -> (r: &str)
        ensures
            r@ == self@,
    {
        self.id.as_str()
    }

    /// Convert this id to a string.
    pub fn to_string(self) -> (r: String)
        ensures
            r@ == self@,
    {
        self.id
    }
}

impl Clone for ResourceID {
    fn clone(&self) -> (r: Self)
        ensures
            r == *self,
    {
        ResourceID { id: self.id.clone() }
    }
}

impl PartialEq for ResourceID {
    fn eq(&self, other: &Self) -> (r: bool) {
        self.id == other.id
    }
}

impl vstd::std_specs::cmp::PartialEqSpecImpl for ResourceID {
    open spec fn obeys_eq_spec() -> bool {
        true
    }

    open spec fn eq_spec(&self, other: &Self) -> bool {
        self@ == other@
    }
}

impl ModelID for ResourceID {}


/// The ID of a resource specification.
#[derive(Debug, Eq, Hash)]
pub struct ResourceSpecID {
    id: String,
}

impl View for ResourceSpecID {
    type V = Seq<char>;

    closed spec fn view(&self) -> Seq<char> {
        self.id@
    }
}

impl ResourceSpecID {
    /// Create an id from a string.
    pub fn new(id: &str) -> (r: Self)
        ensures
            r@ == id@,
    {
        ResourceSpecID { id: id.to_string() }
    }

    /// Create an id that owns the given string.
    pub fn from_string(id: String) -> (r: Self)
        ensures
            r@ == id@,
    {
        ResourceSpecID { id }
    }

    /// Create a new random id (UUIDv4).
    pub fn create() -> (r: Self)
        ensures
            is_uuid_v4(r@),
    {
        ResourceSpecID { id: random_uuid() }
    }

    /// The id's string.
    pub fn as_string(&self) -> (r: &String)
        ensures
            r@ == self@,
    {
        &self.id
    }

    /// The id's string.
    pub fn as_str(&self) -> (r: &str)
        ensures
            r@ == self@,
    {
        self.id.as_str()
    }

    /// Convert this id to a string.
    pub fn to_string(self) -> (r: String)
        ensures
            r@ == self@,
    {
        self.id
    }
}

impl Clone for ResourceSpecID {
    fn clone(&self) -> (r: Self)
        ensures
            r == *self,
    {
        ResourceSpecID { id: self.id.clone() }
    }
}

impl PartialEq for ResourceSpecID {
    fn eq(&self, other: &Self) -> (r: bool) {
        self.id == other.id
    }
}

impl vstd::std_specs::cmp::PartialEqSpecImpl for ResourceSpecID {
    open spec fn obeys_eq_spec() -> bool {
        true
    }

    open spec fn eq_spec(&self, other: &Self) -> bool {
        self@ == other@
    }
}

impl ModelID for ResourceSpecID {}


/// The ID of a user.
#[derive(Debug, Eq, Hash)]
pub struct UserID {
    id: String,
}

impl View for UserID {
    type V = Seq<char>;

    closed spec fn view(&self) -> Seq<char> {
        self.id@
    }
}

impl UserID {
    /// Create an id from a string.
    pub fn new(id: &str) -> (r: Self)
        ensures
            r@ == id@,
    {
        UserID { id: id.to_string() }
    }

    /// Create an id that owns the given string.
    pub fn from_string(id: String) -> (r: Self)
        ensures
            r@ == id@,
    {
        UserID { id }
    }

    /// Create a new random id (UUIDv4).
    pub fn create() -> (r: Self)
        ensures
            is_uuid_v4(r@),
    {
        UserID { id: random_uuid() }
    }

    /// The id's string.
    pub fn as_string(&self) -> (r: &String)
        ensures
            r@ == self@,
    {
        &self.id
    }

    /// The id's string.
    pub fn as_str(&self) -> (r: &str)
        ensures
            r@ == self@,
    {
        self.id.as_str()
    }

    /// Convert this id to a string.
    pub fn to_string(self) -> (r: String)
        ensures
            r@ == self@,
    {
        self.id
    }
}

impl Clone for UserID {
    fn clone(&self) -> (r: Self)
        ensures
            r == *self,
    {
        UserID { id: self.id.clone() }
    }
}

impl PartialEq for UserID {
    fn eq(&self, other: &Self) -> (r: bool) {
        self.id == other.id
    }
}

impl vstd::std_specs::cmp::PartialEqSpecImpl for UserID {
    open spec fn obeys_eq_spec() -> bool {
        true
    }

    open spec fn eq_spec(&self, other: &Self) -> bool {
        self@ == other@
    }
}

impl ModelID for UserID {}


/// The ID of a company member.
#[derive(Debug, Eq, Hash)]
pub struct CompanyMemberID {
    id: String,
}

impl View for CompanyMemberID {
    type V = Seq<char>;

    closed spec fn view(&self) -> Seq<char> {
        self.id@
    }
}

impl CompanyMemberID {
    /// Create an id from a string.
    pub fn new(id: &str) -> (r: Self)
        ensures
            r@ == id@,
    {
        CompanyMemberID { id: id.to_string() }
    }

    /// Create an id that owns the given string.
    pub fn from_string(id: String) -> (r: Self)
        ensures
            r@ == id@,
    {
        CompanyMemberID { id }
    }

    /// Create a new random id (UUIDv4).
    pub fn create() -> (r: Self)
        ensures
            is_uuid_v4(r@),
    {
        CompanyMemberID { id: random_uuid() }
    }

    /// The id's string.
    pub fn as_string(&self) -> (r: &String)
        ensures
            r@ == self@,
    {
        &self.id
    }

    /// The id's string.
    pub fn as_str(&self) -> (r: &str)
        ensures
            r@ == self@,
    {
        self.id.as_str()
    }

    /// Convert this id to a string.
    pub fn to_string(self) -> (r: String)
        ensures
            r@ == self@,
    {
        self.id
    }
}

impl Clone for CompanyMemberID {
    fn clone(&self) -> (r: Self)
        ensures
            r == *self,
    {
        CompanyMemberID { id: self.id.clone() }
    }
}

impl PartialEq for CompanyMemberID {
    fn eq(&self, other: &Self) -> (r: bool) {
        self.id == other.id
    }
}

impl vstd::std_specs::cmp::PartialEqSpecImpl for CompanyMemberID {
    open spec fn obeys_eq_spec() -> bool {
        true
    }

    open spec fn eq_spec(&self, other: &Self) -> bool {
        self@ == other@
    }
}

impl ModelID for CompanyMemberID {}


/// The ID of a resource tag.
#[derive(Debug, Eq, Hash)]
pub struct ResourceTagID {
    id: String,
}

impl View for ResourceTagID {
    type V = Seq<char>;

    closed spec fn view(&self) -> Seq<char> {
        self.id@
    }
}

impl ResourceTagID {
    /// Create an id from a string.
    pub fn new(id: &str) -> (r: Self)
        ensures
            r@ == id@,
    {
        ResourceTagID { id: id.to_string() }
    }

    /// Create an id that owns the given string.
    pub fn from_string(id: String) -> (r: Self)
        ensures
            r@ == id@,
    {
        ResourceTagID { id }
    }

    /// Create a new random id (UUIDv4).
    pub fn create() -> (r: Self)
        ensures
            is_uuid_v4(r@),
    {
        ResourceTagID { id: random_uuid() }
    }

    /// The id's string.
    pub fn as_string(&self) -> (r: &String)
        ensures
            r@ == self@,
    {
        &self.id
    }

    /// The id's string.
    pub fn as_str(&self) -> (r: &str)
        ensures
            r@ == self@,
    {
        self.id.as_str()
    }

    /// Convert this id to a string.
    pub fn to_string(self) -> (r: String)
        ensures
            r@ == self@,
    {
        self.id
    }
}

impl Clone for ResourceTagID {
    fn clone(&self) -> (r: Self)
        ensures
            r == *self,
    {
        ResourceTagID { id: self.id.clone() }
    }
}

impl PartialEq for ResourceTagID {
    fn eq(&self, other: &Self) -> (r: bool) {
        self.id == other.id
    }
}

impl vstd::std_specs::cmp::PartialEqSpecImpl for ResourceTagID {
    open spec fn obeys_eq_spec() -> bool {
        true
    }

    open spec fn eq_spec(&self, other: &Self) -> bool {
        self@ == other@
    }
}

impl ModelID for ResourceTagID {}


/// The ID of a labor record.
#[derive(Debug, Eq, Hash)]
pub struct LaborID {
    id: String,
}

impl View for LaborID {
    type V = Seq<char>;

    closed spec fn view(&self) -> Seq<char> {
        self.id@
    }
}

impl LaborID {
    /// Create an id from a string.
    pub fn new(id: &str) -> (r: Self)
        ensures
            r@ == id@,
    {
        LaborID { id: id.to_string() }
    }

    /// Create an id that owns the given string.
    pub fn from_string(id: String) -> (r: Self)
        ensures
            r@ == id@,
    {
        LaborID { id }
    }

    /// Create a new random id (UUIDv4).
    pub fn create() -> (r: Self)
        ensures
            is_uuid_v4(r@),
    {
        LaborID { id: random_uuid() }
    }

    /// The id's string.
    pub fn as_string(&self) -> (r: &String)
        ensures
            r@ == self@,
    {
        &self.id
    }

    /// The id's string.
    pub fn as_str(&self) -> (r: &str)
        ensures
            r@ == self@,
    {
        self.id.as_str()
    }

    /// Convert this id to a string.
    pub fn to_string(self) -> (r: String)
        ensures
            r@ == self@,
    {
        self.id
    }
}

impl Clone for LaborID {
    fn clone(&self) -> (r: Self)
        ensures
            r == *self,
    {
        LaborID { id: self.id.clone() }
    }
}

impl PartialEq for LaborID {
    fn eq(&self, other: &Self) -> (r: bool) {
        self.id == other.id
    }
}

impl vstd::std_specs::cmp::PartialEqSpecImpl for LaborID {
    open spec fn obeys_eq_spec() -> bool {
        true
    }

    open spec fn eq_spec(&self, other: &Self) -> bool {
        self@ == other@
    }
}

impl ModelID for LaborID {}

} // verus!

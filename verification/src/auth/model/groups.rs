use vstd::prelude::*;

use vstd::std_specs::convert::FromSpecImpl;

use crate::clock::Timestamp;
use crate::entity::auth_group;
use crate::entity::sea_orm_active_enums;
use crate::eve::model::character::CharacterAffiliationDto;

verus! {

/// How users become members of a group: `Open` and `Auto` groups take eligible
/// users directly, `Apply` and `Hidden` groups go through an application.
#[derive(Clone, Copy, Debug, PartialEq, Eq, Structural)]
pub enum GroupType {
    Open,
    Auto,
    Apply,
    Hidden,
}

/// The stored form of a group type.
pub open spec fn stored_group_type(item: GroupType) -> sea_orm_active_enums::GroupType {
    match item {
        GroupType::Open => sea_orm_active_enums::GroupType::Open,
        GroupType::Auto => sea_orm_active_enums::GroupType::Auto,
        GroupType::Apply => sea_orm_active_enums::GroupType::Apply,
        GroupType::Hidden => sea_orm_active_enums::GroupType::Hidden,
    }
}

/// The group type a stored one stands for.
pub open spec fn group_type_of(item: sea_orm_active_enums::GroupType) -> GroupType {
    match item {
        sea_orm_active_enums::GroupType::Open => GroupType::Open,
        sea_orm_active_enums::GroupType::Auto => GroupType::Auto,
        sea_orm_active_enums::GroupType::Apply => GroupType::Apply,
        sea_orm_active_enums::GroupType::Hidden => GroupType::Hidden,
    }
}

impl From<GroupType> for sea_orm_active_enums::GroupType {
    fn from(item: GroupType) -> (r: Self) {
        match item {
            GroupType::Open => sea_orm_active_enums::GroupType::Open,
            GroupType::Auto => sea_orm_active_enums::GroupType::Auto,
            GroupType::Apply => sea_orm_active_enums::GroupType::Apply,
            GroupType::Hidden => sea_orm_active_enums::GroupType::Hidden,
        }
    }
}

impl FromSpecImpl<GroupType> for sea_orm_active_enums::GroupType {
    open spec fn obeys_from_spec() -> bool {
        true
    }

    open spec fn from_spec(item: GroupType) -> Self {
        stored_group_type(item)
    }
}

impl From<sea_orm_active_enums::GroupType> for GroupType {
    fn from(item: sea_orm_active_enums::GroupType) -> (r: Self) {
        match item {
            sea_orm_active_enums::GroupType::Open => GroupType::Open,
            sea_orm_active_enums::GroupType::Auto => GroupType::Auto,
            sea_orm_active_enums::GroupType::Apply => GroupType::Apply,
            sea_orm_active_enums::GroupType::Hidden => GroupType::Hidden,
        }
    }
}

impl FromSpecImpl<sea_orm_active_enums::GroupType> for GroupType {
    open spec fn obeys_from_spec() -> bool {
        true
    }

    open spec fn from_spec(item: sea_orm_active_enums::GroupType) -> Self {
        group_type_of(item)
    }
}

/// Converting a group type to its stored form and back gives the same
/// value, and the other way round.
pub proof fn lemma_group_type_round_trip(item: GroupType, stored: sea_orm_active_enums::GroupType)
    ensures
        group_type_of(stored_group_type(item)) == item,
        stored_group_type(group_type_of(stored)) == stored,
{
}

/// Whether all rules of a rule set must hold (`All`) or at least one (`Any`).
#[derive(Clone, Copy, Debug, PartialEq, Eq, Structural)]
pub enum GroupFilterType {
    All,
    Any,
}

/// The stored form of a group filter type.
pub open spec fn stored_group_filter_type(item: GroupFilterType) -> sea_orm_active_enums::GroupFilterType {
    match item {
        GroupFilterType::All => sea_orm_active_enums::GroupFilterType::All,
        GroupFilterType::Any => sea_orm_active_enums::GroupFilterType::Any,
    }
}

/// The group filter type a stored one stands for.
pub open spec fn group_filter_type_of(item: sea_orm_active_enums::GroupFilterType) -> GroupFilterType {
    match item {
        sea_orm_active_enums::GroupFilterType::All => GroupFilterType::All,
        sea_orm_active_enums::GroupFilterType::Any => GroupFilterType::Any,
    }
}

impl From<GroupFilterType> for sea_orm_active_enums::GroupFilterType {
    fn from(item: GroupFilterType) -> (r: Self) {
        match item {
            GroupFilterType::All => sea_orm_active_enums::GroupFilterType::All,
            GroupFilterType::Any => sea_orm_active_enums::GroupFilterType::Any,
        }
    }
}

impl FromSpecImpl<GroupFilterType> for sea_orm_active_enums::GroupFilterType {
    open spec fn obeys_from_spec() -> bool {
        true
    }

    open spec fn from_spec(item: GroupFilterType) -> Self {
        stored_group_filter_type(item)
    }
}

impl From<sea_orm_active_enums::GroupFilterType> for GroupFilterType {
    fn from(item: sea_orm_active_enums::GroupFilterType) -> (r: Self) {
        match item {
            sea_orm_active_enums::GroupFilterType::All => GroupFilterType::All,
            sea_orm_active_enums::GroupFilterType::Any => GroupFilterType::Any,
        }
    }
}

impl FromSpecImpl<sea_orm_active_enums::GroupFilterType> for GroupFilterType {
    open spec fn obeys_from_spec() -> bool {
        true
    }

    open spec fn from_spec(item: sea_orm_active_enums::GroupFilterType) -> Self {
        group_filter_type_of(item)
    }
}

/// Converting a group filter type to its stored form and back gives the same
/// value, and the other way round.
pub proof fn lemma_group_filter_type_round_trip(item: GroupFilterType, stored: sea_orm_active_enums::GroupFilterType)
    ensures
        group_filter_type_of(stored_group_filter_type(item)) == item,
        stored_group_filter_type(group_filter_type_of(stored)) == stored,
{
}

/// What a filter rule looks at: membership of another group, corporation,
/// alliance, or a leadership role (`CEO` or `Executor`).
#[derive(Clone, Copy, Debug, PartialEq, Eq, Structural)]
pub enum GroupFilterCriteria {
    Group,
    Corporation,
    Alliance,
    Role,
}

/// The stored form of a group filter criteria.
pub open spec fn stored_group_filter_criteria(item: GroupFilterCriteria) -> sea_orm_active_enums::GroupFilterCriteria {
    match item {
        GroupFilterCriteria::Group => sea_orm_active_enums::GroupFilterCriteria::Group,
        GroupFilterCriteria::Corporation => sea_orm_active_enums::GroupFilterCriteria::Corporation,
        GroupFilterCriteria::Alliance => sea_orm_active_enums::GroupFilterCriteria::Alliance,
        GroupFilterCriteria::Role => sea_orm_active_enums::GroupFilterCriteria::Role,
    }
}

/// The group filter criteria a stored one stands for.
pub open spec fn group_filter_criteria_of(item: sea_orm_active_enums::GroupFilterCriteria) -> GroupFilterCriteria {
    match item {
        sea_orm_active_enums::GroupFilterCriteria::Group => GroupFilterCriteria::Group,
        sea_orm_active_enums::GroupFilterCriteria::Corporation => GroupFilterCriteria::Corporation,
        sea_orm_active_enums::GroupFilterCriteria::Alliance => GroupFilterCriteria::Alliance,
        sea_orm_active_enums::GroupFilterCriteria::Role => GroupFilterCriteria::Role,
    }
}

impl From<GroupFilterCriteria> for sea_orm_active_enums::GroupFilterCriteria {
    fn from(item: GroupFilterCriteria) -> (r: Self) {
        match item {
            GroupFilterCriteria::Group => sea_orm_active_enums::GroupFilterCriteria::Group,
            GroupFilterCriteria::Corporation => sea_orm_active_enums::GroupFilterCriteria::Corporation,
            GroupFilterCriteria::Alliance => sea_orm_active_enums::GroupFilterCriteria::Alliance,
            GroupFilterCriteria::Role => sea_orm_active_enums::GroupFilterCriteria::Role,
        }
    }
}

impl FromSpecImpl<GroupFilterCriteria> for sea_orm_active_enums::GroupFilterCriteria {
    open spec fn obeys_from_spec() -> bool {
        true
    }

    open spec fn from_spec(item: GroupFilterCriteria) -> Self {
        stored_group_filter_criteria(item)
    }
}

impl From<sea_orm_active_enums::GroupFilterCriteria> for GroupFilterCriteria {
    fn from(item: sea_orm_active_enums::GroupFilterCriteria) -> (r: Self) {
        match item {
            sea_orm_active_enums::GroupFilterCriteria::Group => GroupFilterCriteria::Group,
            sea_orm_active_enums::GroupFilterCriteria::Corporation => GroupFilterCriteria::Corporation,
            sea_orm_active_enums::GroupFilterCriteria::Alliance => GroupFilterCriteria::Alliance,
            sea_orm_active_enums::GroupFilterCriteria::Role => GroupFilterCriteria::Role,
        }
    }
}

impl FromSpecImpl<sea_orm_active_enums::GroupFilterCriteria> for GroupFilterCriteria {
    open spec fn obeys_from_spec() -> bool {
        true
    }

    open spec fn from_spec(item: sea_orm_active_enums::GroupFilterCriteria) -> Self {
        group_filter_criteria_of(item)
    }
}

/// Converting a group filter criteria to its stored form and back gives the same
/// value, and the other way round.
pub proof fn lemma_group_filter_criteria_round_trip(item: GroupFilterCriteria, stored: sea_orm_active_enums::GroupFilterCriteria)
    ensures
        group_filter_criteria_of(stored_group_filter_criteria(item)) == item,
        stored_group_filter_criteria(group_filter_criteria_of(stored)) == stored,
{
}

/// How a filter rule compares.
#[derive(Clone, Copy, Debug, PartialEq, Eq, Structural)]
pub enum GroupFilterCriteriaType {
    Is,
    IsNot,
    GreaterThan,
    LessThan,
}

/// The stored form of a group filter criteria type.
pub open spec fn stored_group_filter_criteria_type(item: GroupFilterCriteriaType) -> sea_orm_active_enums::GroupFilterCriteriaType {
    match item {
        GroupFilterCriteriaType::Is => sea_orm_active_enums::GroupFilterCriteriaType::Is,
        GroupFilterCriteriaType::IsNot => sea_orm_active_enums::GroupFilterCriteriaType::IsNot,
        GroupFilterCriteriaType::GreaterThan => sea_orm_active_enums::GroupFilterCriteriaType::GreaterThan,
        GroupFilterCriteriaType::LessThan => sea_orm_active_enums::GroupFilterCriteriaType::LessThan,
    }
}

/// The group filter criteria type a stored one stands for.
pub open spec fn group_filter_criteria_type_of(item: sea_orm_active_enums::GroupFilterCriteriaType) -> GroupFilterCriteriaType {
    match item {
        sea_orm_active_enums::GroupFilterCriteriaType::Is => GroupFilterCriteriaType::Is,
        sea_orm_active_enums::GroupFilterCriteriaType::IsNot => GroupFilterCriteriaType::IsNot,
        sea_orm_active_enums::GroupFilterCriteriaType::GreaterThan => GroupFilterCriteriaType::GreaterThan,
        sea_orm_active_enums::GroupFilterCriteriaType::LessThan => GroupFilterCriteriaType::LessThan,
    }
}

impl From<GroupFilterCriteriaType> for sea_orm_active_enums::GroupFilterCriteriaType {
    fn from(item: GroupFilterCriteriaType) -> (r: Self) {
        match item {
            GroupFilterCriteriaType::Is => sea_orm_active_enums::GroupFilterCriteriaType::Is,
            GroupFilterCriteriaType::IsNot => sea_orm_active_enums::GroupFilterCriteriaType::IsNot,
            GroupFilterCriteriaType::GreaterThan => sea_orm_active_enums::GroupFilterCriteriaType::GreaterThan,
            GroupFilterCriteriaType::LessThan => sea_orm_active_enums::GroupFilterCriteriaType::LessThan,
        }
    }
}

impl FromSpecImpl<GroupFilterCriteriaType> for sea_orm_active_enums::GroupFilterCriteriaType {
    open spec fn obeys_from_spec() -> bool {
        true
    }

    open spec fn from_spec(item: GroupFilterCriteriaType) -> Self {
        stored_group_filter_criteria_type(item)
    }
}

impl From<sea_orm_active_enums::GroupFilterCriteriaType> for GroupFilterCriteriaType {
    fn from(item: sea_orm_active_enums::GroupFilterCriteriaType) -> (r: Self) {
        match item {
            sea_orm_active_enums::GroupFilterCriteriaType::Is => GroupFilterCriteriaType::Is,
            sea_orm_active_enums::GroupFilterCriteriaType::IsNot => GroupFilterCriteriaType::IsNot,
            sea_orm_active_enums::GroupFilterCriteriaType::GreaterThan => GroupFilterCriteriaType::GreaterThan,
            sea_orm_active_enums::GroupFilterCriteriaType::LessThan => GroupFilterCriteriaType::LessThan,
        }
    }
}

impl FromSpecImpl<sea_orm_active_enums::GroupFilterCriteriaType> for GroupFilterCriteriaType {
    open spec fn obeys_from_spec() -> bool {
        true
    }

    open spec fn from_spec(item: sea_orm_active_enums::GroupFilterCriteriaType) -> Self {
        group_filter_criteria_type_of(item)
    }
}

/// Converting a group filter criteria type to its stored form and back gives the same
/// value, and the other way round.
pub proof fn lemma_group_filter_criteria_type_round_trip(item: GroupFilterCriteriaType, stored: sea_orm_active_enums::GroupFilterCriteriaType)
    ensures
        group_filter_criteria_type_of(stored_group_filter_criteria_type(item)) == item,
        stored_group_filter_criteria_type(group_filter_criteria_type_of(stored)) == stored,
{
}

/// The state of an application.
#[derive(Clone, Copy, Debug, PartialEq, Eq, Structural)]
pub enum GroupApplicationStatus {
    Outstanding,
    Accepted,
    Rejected,
}

/// The stored form of a group application status.
pub open spec fn stored_group_application_status(item: GroupApplicationStatus) -> sea_orm_active_enums::GroupApplicationStatus {
    match item {
        GroupApplicationStatus::Outstanding => sea_orm_active_enums::GroupApplicationStatus::Outstanding,
        GroupApplicationStatus::Accepted => sea_orm_active_enums::GroupApplicationStatus::Accepted,
        GroupApplicationStatus::Rejected => sea_orm_active_enums::GroupApplicationStatus::Rejected,
    }
}

/// The group application status a stored one stands for.
pub open spec fn group_application_status_of(item: sea_orm_active_enums::GroupApplicationStatus) -> GroupApplicationStatus {
    match item {
        sea_orm_active_enums::GroupApplicationStatus::Outstanding => GroupApplicationStatus::Outstanding,
        sea_orm_active_enums::GroupApplicationStatus::Accepted => GroupApplicationStatus::Accepted,
        sea_orm_active_enums::GroupApplicationStatus::Rejected => GroupApplicationStatus::Rejected,
    }
}

impl From<GroupApplicationStatus> for sea_orm_active_enums::GroupApplicationStatus {
    fn from(item: GroupApplicationStatus) -> (r: Self) {
        match item {
            GroupApplicationStatus::Outstanding => sea_orm_active_enums::GroupApplicationStatus::Outstanding,
            GroupApplicationStatus::Accepted => sea_orm_active_enums::GroupApplicationStatus::Accepted,
            GroupApplicationStatus::Rejected => sea_orm_active_enums::GroupApplicationStatus::Rejected,
        }
    }
}

impl FromSpecImpl<GroupApplicationStatus> for sea_orm_active_enums::GroupApplicationStatus {
    open spec fn obeys_from_spec() -> bool {
        true
    }

    open spec fn from_spec(item: GroupApplicationStatus) -> Self {
        stored_group_application_status(item)
    }
}

impl From<sea_orm_active_enums::GroupApplicationStatus> for GroupApplicationStatus {
    fn from(item: sea_orm_active_enums::GroupApplicationStatus) -> (r: Self) {
        match item {
            sea_orm_active_enums::GroupApplicationStatus::Outstanding => GroupApplicationStatus::Outstanding,
            sea_orm_active_enums::GroupApplicationStatus::Accepted => GroupApplicationStatus::Accepted,
            sea_orm_active_enums::GroupApplicationStatus::Rejected => GroupApplicationStatus::Rejected,
        }
    }
}

impl FromSpecImpl<sea_orm_active_enums::GroupApplicationStatus> for GroupApplicationStatus {
    open spec fn obeys_from_spec() -> bool {
        true
    }

    open spec fn from_spec(item: sea_orm_active_enums::GroupApplicationStatus) -> Self {
        group_application_status_of(item)
    }
}

/// Converting a group application status to its stored form and back gives the same
/// value, and the other way round.
pub proof fn lemma_group_application_status_round_trip(item: GroupApplicationStatus, stored: sea_orm_active_enums::GroupApplicationStatus)
    ensures
        group_application_status_of(stored_group_application_status(item)) == item,
        stored_group_application_status(group_application_status_of(stored)) == stored,
{
}

/// Whether an application asks to join or to leave a group.
#[derive(Clone, Copy, Debug, PartialEq, Eq, Structural)]
pub enum GroupApplicationType {
    Join,
    Leave,
}

/// The stored form of a group application type.
pub open spec fn stored_group_application_type(item: GroupApplicationType) -> sea_orm_active_enums::GroupApplicationType {
    match item {
        GroupApplicationType::Join => sea_orm_active_enums::GroupApplicationType::Join,
        GroupApplicationType::Leave => sea_orm_active_enums::GroupApplicationType::Leave,
    }
}

/// The group application type a stored one stands for.
pub open spec fn group_application_type_of(item: sea_orm_active_enums::GroupApplicationType) -> GroupApplicationType {
    match item {
        sea_orm_active_enums::GroupApplicationType::Join => GroupApplicationType::Join,
        sea_orm_active_enums::GroupApplicationType::Leave => GroupApplicationType::Leave,
    }
}

impl From<GroupApplicationType> for sea_orm_active_enums::GroupApplicationType {
    fn from(item: GroupApplicationType) -> (r: Self) {
        match item {
            GroupApplicationType::Join => sea_orm_active_enums::GroupApplicationType::Join,
            GroupApplicationType::Leave => sea_orm_active_enums::GroupApplicationType::Leave,
        }
    }
}

impl FromSpecImpl<GroupApplicationType> for sea_orm_active_enums::GroupApplicationType {
    open spec fn obeys_from_spec() -> bool {
        true
    }

    open spec fn from_spec(item: GroupApplicationType) -> Self {
        stored_group_application_type(item)
    }
}

impl From<sea_orm_active_enums::GroupApplicationType> for GroupApplicationType {
    fn from(item: sea_orm_active_enums::GroupApplicationType) -> (r: Self) {
        match item {
            sea_orm_active_enums::GroupApplicationType::Join => GroupApplicationType::Join,
            sea_orm_active_enums::GroupApplicationType::Leave => GroupApplicationType::Leave,
        }
    }
}

impl FromSpecImpl<sea_orm_active_enums::GroupApplicationType> for GroupApplicationType {
    open spec fn obeys_from_spec() -> bool {
        true
    }

    open spec fn from_spec(item: sea_orm_active_enums::GroupApplicationType) -> Self {
        group_application_type_of(item)
    }
}

/// Converting a group application type to its stored form and back gives the same
/// value, and the other way round.
pub proof fn lemma_group_application_type_round_trip(item: GroupApplicationType, stored: sea_orm_active_enums::GroupApplicationType)
    ensures
        group_application_type_of(stored_group_application_type(item)) == item,
        stored_group_application_type(group_application_type_of(stored)) == stored,
{
}

/// A group as shown to clients.
pub struct GroupDto {
    pub id: i32,
    pub name: String,
    pub description: Option<String>,
    pub group_type: GroupType,
}

impl From<auth_group::Model> for GroupDto {
    fn from(model: auth_group::Model) -> (r: Self) {
        GroupDto {
            id: model.id,
            name: model.name,
            description: model.description,
            group_type: GroupType::from(model.group_type),
        }
    }
}

impl FromSpecImpl<auth_group::Model> for GroupDto {
    open spec fn obeys_from_spec() -> bool {
        true
    }

    open spec fn from_spec(model: auth_group::Model) -> Self {
        GroupDto {
            id: model.id,
            name: model.name,
            description: model.description,
            group_type: group_type_of(model.group_type),
        }
    }
}

/// One filter rule: `criteria_value` is a group, corporation or alliance id
/// written in decimal, or the role name `CEO` or `Executor`.
pub struct GroupFilterRuleDto {
    pub criteria: GroupFilterCriteria,
    pub criteria_type: GroupFilterCriteriaType,
    pub criteria_value: String,
}

/// A nested rule set of a group's filters.
pub struct GroupFilterGroupDto {
    pub filter_type: GroupFilterType,
    pub rules: Vec<GroupFilterRuleDto>,
}

/// All filters of a group: its own rules, combined by `filter_type`, and its
/// nested rule sets; the results of the rule sets are combined by
/// `filter_type` as well.
pub struct GroupFilters {
    pub id: i32,
    pub filter_type: GroupFilterType,
    pub filter_rules: Vec<GroupFilterRuleDto>,
    pub filter_groups: Vec<GroupFilterGroupDto>,
}

/// A new group with its filters.
pub struct NewGroupDto {
    pub name: String,
    pub confidential: bool,
    pub description: Option<String>,
    pub leave_applications: bool,
    pub group_type: GroupType,
    pub filter_type: GroupFilterType,
    pub filter_rules: Vec<GroupFilterRuleDto>,
    pub filter_groups: Vec<GroupFilterGroupDto>,
}

/// A filter rule in an update: with an id it replaces that stored rule,
/// without one it is added.
pub struct UpdateGroupFilterRuleDto {
    pub id: Option<i32>,
    pub criteria: GroupFilterCriteria,
    pub criteria_type: GroupFilterCriteriaType,
    pub criteria_value: String,
}

/// A nested rule set in an update: with an id it replaces that stored rule
/// set, without one it is added.
pub struct UpdateGroupFilterGroupDto {
    pub id: Option<i32>,
    pub filter_type: GroupFilterType,
    pub rules: Vec<UpdateGroupFilterRuleDto>,
}

/// The new state of a group.
pub struct UpdateGroupDto {
    pub name: String,
    pub confidential: bool,
    pub description: Option<String>,
    pub leave_applications: bool,
    pub group_type: GroupType,
    pub filter_type: GroupFilterType,
    pub filter_rules: Vec<UpdateGroupFilterRuleDto>,
    pub filter_groups: Vec<UpdateGroupFilterGroupDto>,
}

/// A rule of an update without its id.
pub open spec fn rule_of_update(rule: UpdateGroupFilterRuleDto) -> GroupFilterRuleDto {
    GroupFilterRuleDto {
        criteria: rule.criteria,
        criteria_type: rule.criteria_type,
        criteria_value: rule.criteria_value,
    }
}

/// The rules of an update without their ids.
pub open spec fn updated_rules(rules: Seq<UpdateGroupFilterRuleDto>) -> Seq<GroupFilterRuleDto> {
    rules.map_values(|u: UpdateGroupFilterRuleDto| rule_of_update(u))
}

fn rules_of_update(rules: &Vec<UpdateGroupFilterRuleDto>) -> (r: Vec<GroupFilterRuleDto>)
    ensures
        r@ == updated_rules(rules@),
{
    let mut out: Vec<GroupFilterRuleDto> = Vec::new();
    let mut i: usize = 0;
    while i < rules.len()
        invariant
            i <= rules@.len(),
            out@ == updated_rules(rules@.take(i as int)),
        decreases rules.len() - i,
    {
        let u = &rules[i];
        out.push(
            GroupFilterRuleDto {
                criteria: u.criteria,
                criteria_type: u.criteria_type,
                criteria_value: u.criteria_value.clone(),
            },
        );
        proof {
            assert(rules@.take(i + 1) =~= rules@.take(i as int).push(rules@[i as int]));
        }
        i = i + 1;
    }
    assert(rules@.take(rules@.len() as int) =~= rules@);
    out
}

impl UpdateGroupDto {
    /// The update as a new group: the same settings and filters, with the
    /// ids of the stored rules and rule sets left out.
    pub fn to_new_group(&self) -> (r: NewGroupDto)
        ensures
            r.name == self.name,
            r.confidential == self.confidential,
            r.description == self.description,
            r.leave_applications == self.leave_applications,
            r.group_type == self.group_type,
            r.filter_type == self.filter_type,
            r.filter_rules@ == updated_rules(self.filter_rules@),
            r.filter_groups@.len() == self.filter_groups@.len(),
            forall|k: int|
                0 <= k < r.filter_groups@.len() ==> (#[trigger] r.filter_groups@[k]).filter_type
                    == self.filter_groups@[k].filter_type && r.filter_groups@[k].rules@
                    == updated_rules(self.filter_groups@[k].rules@),
    {
        let mut groups: Vec<GroupFilterGroupDto> = Vec::new();
        let mut k: usize = 0;
        while k < self.filter_groups.len()
            invariant
                k <= self.filter_groups@.len(),
                groups@.len() == k,
                forall|q: int|
                    0 <= q < k ==> (#[trigger] groups@[q]).filter_type
                        == self.filter_groups@[q].filter_type && groups@[q].rules@
                        == updated_rules(self.filter_groups@[q].rules@),
            decreases self.filter_groups.len() - k,
        {
            let g = &self.filter_groups[k];
            groups.push(GroupFilterGroupDto { filter_type: g.filter_type, rules: rules_of_update(&g.rules) });
            k = k + 1;
        }
        NewGroupDto {
            name: self.name.clone(),
            confidential: self.confidential,
            description: self.description.clone(),
            leave_applications: self.leave_applications,
            group_type: self.group_type,
            filter_type: self.filter_type,
            filter_rules: rules_of_update(&self.filter_rules),
            filter_groups: groups,
        }
    }
}

/// An application as shown to clients, with the applicant's main character
/// and, once someone answered, the responder's.
pub struct GroupApplicationDto {
    pub id: i32,
    pub group_id: i32,
    pub user_id: i32,
    pub applicant_info: CharacterAffiliationDto,
    pub responder_info: Option<CharacterAffiliationDto>,
    pub status: GroupApplicationStatus,
    pub request_type: GroupApplicationType,
    pub request_message: Option<String>,
    pub response_message: Option<String>,
    pub created: Timestamp,
    pub last_updated: Timestamp,
}

} // verus!

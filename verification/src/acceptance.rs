use crate::auth::{is_partner_or_above, rank, User};
use crate::records::{AcceptanceDecision, ClientAcceptanceQuestionnaire, RiskLevel};
use vstd::prelude::*;

verus! {

/// 1 where the risk is high or unacceptable, else 0.
pub open spec fn high_mark(risk: RiskLevel) -> nat {
    if risk == RiskLevel::High || risk == RiskLevel::Unacceptable {
        1
    } else {
        0
    }
}

/// 1 where the risk is medium, else 0.
pub open spec fn medium_mark(risk: RiskLevel) -> nat {
    if risk == RiskLevel::Medium {
        1
    } else {
        0
    }
}

/// How many of the five risks of a questionnaire are high or unacceptable.
pub open spec fn high_count(q: ClientAcceptanceQuestionnaire) -> nat {
    high_mark(q.management_integrity_risk) + high_mark(q.financial_stability_risk) + high_mark(
        q.industry_risk,
    ) + high_mark(q.regulatory_complexity_risk) + high_mark(q.fee_collection_risk)
}

/// How many of the five risks of a questionnaire are medium.
pub open spec fn medium_count(q: ClientAcceptanceQuestionnaire) -> nat {
    medium_mark(q.management_integrity_risk) + medium_mark(q.financial_stability_risk)
        + medium_mark(q.industry_risk) + medium_mark(q.regulatory_complexity_risk) + medium_mark(
        q.fee_collection_risk,
    )
}

/// Whether one of the five risks of a questionnaire is unacceptable.
pub open spec fn any_unacceptable(q: ClientAcceptanceQuestionnaire) -> bool {
    ||| q.management_integrity_risk == RiskLevel::Unacceptable
    ||| q.financial_stability_risk == RiskLevel::Unacceptable
    ||| q.industry_risk == RiskLevel::Unacceptable
    ||| q.regulatory_complexity_risk == RiskLevel::Unacceptable
    ||| q.fee_collection_risk == RiskLevel::Unacceptable
}

/// The overall risk of a client: unacceptable where one risk is; high where
/// three or more are high; medium where one is high or three or more are
/// medium; else low.
pub open spec fn overall_risk(q: ClientAcceptanceQuestionnaire) -> RiskLevel {
    if any_unacceptable(q) {
        RiskLevel::Unacceptable
    } else if high_count(q) >= 3 {
        RiskLevel::High
    } else if high_count(q) >= 1 || medium_count(q) >= 3 {
        RiskLevel::Medium
    } else {
        RiskLevel::Low
    }
}

fn is_high(risk: RiskLevel) -> (mark: u8)
    ensures
        mark == high_mark(risk),
{
    match risk {
        RiskLevel::High | RiskLevel::Unacceptable => 1,
        _ => 0,
    }
}

fn is_medium(risk: RiskLevel) -> (mark: u8)
    ensures
        mark == medium_mark(risk),
{
    match risk {
        RiskLevel::Medium => 1,
        _ => 0,
    }
}

/// Weighs the five risks of a questionnaire into one.
pub fn calculate_overall_risk(questionnaire: &ClientAcceptanceQuestionnaire) -> (risk: RiskLevel)
    ensures
        risk == overall_risk(*questionnaire),
{
    let high = is_high(questionnaire.management_integrity_risk) + is_high(
        questionnaire.financial_stability_risk,
    ) + is_high(questionnaire.industry_risk) + is_high(questionnaire.regulatory_complexity_risk)
        + is_high(questionnaire.fee_collection_risk);
    let medium = is_medium(questionnaire.management_integrity_risk) + is_medium(
        questionnaire.financial_stability_risk,
    ) + is_medium(questionnaire.industry_risk) + is_medium(
        questionnaire.regulatory_complexity_risk,
    ) + is_medium(questionnaire.fee_collection_risk);
    let unacceptable = questionnaire.management_integrity_risk == RiskLevel::Unacceptable
        || questionnaire.financial_stability_risk == RiskLevel::Unacceptable
        || questionnaire.industry_risk == RiskLevel::Unacceptable
        || questionnaire.regulatory_complexity_risk == RiskLevel::Unacceptable
        || questionnaire.fee_collection_risk == RiskLevel::Unacceptable;
    if unacceptable {
        RiskLevel::Unacceptable
    } else if high >= 3 {
        RiskLevel::High
    } else if high >= 1 || medium >= 3 {
        RiskLevel::Medium
    } else {
        RiskLevel::Low
    }
}

/// The decision on a client: a conflict of interest rejects; so does a
/// threat to independence unless the risk is low; missing resources or
/// expertise send the case to a partner; after that an unacceptable risk
/// rejects, a high risk is accepted by a partner and sent to one by anybody
/// else, and a medium or low risk is accepted.
pub open spec fn acceptance_decision(
    q: ClientAcceptanceQuestionnaire,
    risk: RiskLevel,
    by_partner: bool,
) -> AcceptanceDecision {
    if q.conflicts_of_interest {
        AcceptanceDecision::Rejected
    } else if q.independence_threats && risk != RiskLevel::Low {
        AcceptanceDecision::Rejected
    } else if !q.resources_available || !q.technical_expertise_available {
        AcceptanceDecision::RequiresPartnerReview
    } else {
        match risk {
            RiskLevel::Unacceptable => AcceptanceDecision::Rejected,
            RiskLevel::High => if by_partner {
                AcceptanceDecision::Accepted
            } else {
                AcceptanceDecision::RequiresPartnerReview
            },
            _ => AcceptanceDecision::Accepted,
        }
    }
}

/// Decides on a client for the user who assesses it.
pub fn determine_acceptance_decision(
    questionnaire: &ClientAcceptanceQuestionnaire,
    overall_risk: &RiskLevel,
    user: &User,
) -> (decision: AcceptanceDecision)
    ensures
        decision == acceptance_decision(*questionnaire, *overall_risk, rank(user.role) >= 4),
{
    if questionnaire.conflicts_of_interest {
        return AcceptanceDecision::Rejected;
    }
    if questionnaire.independence_threats && *overall_risk != RiskLevel::Low {
        return AcceptanceDecision::Rejected;
    }
    if !questionnaire.resources_available || !questionnaire.technical_expertise_available {
        return AcceptanceDecision::RequiresPartnerReview;
    }
    match overall_risk {
        RiskLevel::Unacceptable => AcceptanceDecision::Rejected,
        RiskLevel::High => {
            if is_partner_or_above(user) {
                AcceptanceDecision::Accepted
            } else {
                AcceptanceDecision::RequiresPartnerReview
            }
        },
        _ => AcceptanceDecision::Accepted,
    }
}

} // verus!

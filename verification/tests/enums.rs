//! Tests of the string-tagged enums: exact read/print pairs, including
//! the historical quirks the tag tables carry.

use auth_core::project::{
    AppropriateStatus, ArchitecturalServices, BudgetRange, CommercialWork, ProjectStatus,
    SquareRange,
};
use auth_core::user::UserType;

#[test]
fn user_type_round_trip() {
    assert_eq!(UserType::from_str("Admin"), Ok(UserType::Admin));
    assert_eq!(UserType::from_str("Client"), Ok(UserType::Client));
    assert_eq!(UserType::from_str("Vendor"), Ok(UserType::Vendor));
    assert_eq!(UserType::Admin.as_str(), "Admin");
    assert_eq!(UserType::Client.as_str(), "Client");
    assert_eq!(UserType::Vendor.as_str(), "Vendor");
}

#[test]
fn user_type_unknown_tag_is_a_typed_error() {
    assert_eq!(UserType::from_str("Root"), Err("User type is invalid".to_string()));
    assert_eq!(UserType::from_str(""), Err("User type is invalid".to_string()));
    assert_eq!(UserType::from_str("admin"), Err("User type is invalid".to_string()));
}

#[test]
fn project_status_round_trip() {
    for (tag, v) in [
        ("Draft", ProjectStatus::Draft),
        ("Active", ProjectStatus::Active),
        ("Ongoing", ProjectStatus::Ongoing),
        ("Delivered", ProjectStatus::Delivered),
        ("Overdue", ProjectStatus::Overdue),
        ("Complete", ProjectStatus::Complete),
        ("Withdrawn", ProjectStatus::Withdrawn),
        ("OnHold", ProjectStatus::OnHold),
    ] {
        assert_eq!(ProjectStatus::from_str(tag), Ok(v));
        assert_eq!(v.as_str(), tag);
    }
    assert_eq!(
        ProjectStatus::from_str("Paused"),
        Err("Project Status is not correct".to_string())
    );
}

#[test]
fn appropriate_status_round_trip() {
    assert_eq!(
        AppropriateStatus::from_str("Ready to Hire"),
        Ok(AppropriateStatus::ReadyToHire)
    );
    assert_eq!(
        AppropriateStatus::from_str("Researching"),
        Ok(AppropriateStatus::Researching)
    );
    assert_eq!(AppropriateStatus::ReadyToHire.as_str(), "Ready to Hire");
    assert_eq!(
        AppropriateStatus::from_str("ready to hire"),
        Err("Appropriate Status is not correct".to_string())
    );
}

#[test]
fn budget_range_reads_500k_to_1m_as_the_lower_bracket() {
    // the tag tables have always mapped this tag to the lower bracket
    assert_eq!(BudgetRange::from_str("$500k - $1m"), Ok(BudgetRange::From100kTo500k));
    assert_eq!(BudgetRange::from_str("$100k - $500k"), Ok(BudgetRange::From100kTo500k));
    assert_eq!(BudgetRange::from_str("Under $100k"), Ok(BudgetRange::Under100k));
    assert_eq!(BudgetRange::from_str("$1m - $5m"), Ok(BudgetRange::From1mTo5m));
    assert_eq!(BudgetRange::from_str("Over $5m"), Ok(BudgetRange::Over5m));
    assert_eq!(BudgetRange::From500kTo1m.as_str(), "$500k - $1m");
    assert_eq!(
        BudgetRange::from_str("$5m - $10m"),
        Err("Budget Range is not correct".to_string())
    );
}

#[test]
fn square_range_round_trip() {
    for (tag, v) in [
        ("Under 2,000 sqft", SquareRange::Under2th),
        ("2,000 - 5,000 sqft", SquareRange::From2thTo5th),
        ("5,000 - 10,000 sqft", SquareRange::From5thTo10th),
        ("10,000 - 20,000 sqft", SquareRange::From10thTo20th),
        ("20,000 - 100,000 sqft", SquareRange::From20thTo100th),
        ("Over 100,000 sqft", SquareRange::Over100th),
    ] {
        assert_eq!(SquareRange::from_str(tag), Ok(v));
        assert_eq!(v.as_str(), tag);
    }
    assert_eq!(
        SquareRange::from_str("1 sqft"),
        Err("Square Range is not correct".to_string())
    );
}

#[test]
fn commercial_work_round_trip() {
    for (tag, v) in [
        ("Renovation", CommercialWork::Renovation),
        ("Selecting furniture and equipment", CommercialWork::SelectingFurnitureAndEquipment),
        ("Evaluating for sustainability", CommercialWork::EvaluatingForSustainability),
        ("All of the above", CommercialWork::AllOfTheAbove),
    ] {
        assert_eq!(CommercialWork::from_str(tag), Ok(v));
        assert_eq!(v.as_str(), tag);
    }
    assert_eq!(
        CommercialWork::from_str("Demolition"),
        Err("Commercial Work is not correct".to_string())
    );
}

#[test]
fn architectural_services_reads_the_tag_without_the_stray_parenthesis() {
    // reading takes the plain sentence; printing has carried a trailing
    // parenthesis since the tag tables were first written
    assert_eq!(
        ArchitecturalServices::from_str("I know what I want but do not have the team or design yet"),
        Ok(ArchitecturalServices::NoTeamOrDesign)
    );
    assert_eq!(
        ArchitecturalServices::NoTeamOrDesign.as_str(),
        "I know what I want but do not have the team or design yet)"
    );
    assert_eq!(
        ArchitecturalServices::from_str("I have a contractor"),
        Ok(ArchitecturalServices::Contractor)
    );
    assert_eq!(
        ArchitecturalServices::from_str("The project has been approved for a permit"),
        Ok(ArchitecturalServices::ApprovedForAPermit)
    );
    assert_eq!(
        ArchitecturalServices::from_str("none"),
        Err("Architectural Service is not correct".to_string())
    );
}

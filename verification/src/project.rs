//! String-tagged attributes of a project record. The project feature set
//! itself lives outside this crate; these tags are kept here because their
//! read/print pairs are plain logic that request validation relies on.

use vstd::prelude::*;
use crate::strutil::str_eq;

verus! {

/// Lifecycle state of a project.
#[derive(Debug, Clone, Copy, PartialEq, Eq, Structural)]
pub enum ProjectStatus {
    Draft,
    Active,
    Ongoing,
    Delivered,
    Overdue,
    Complete,
    Withdrawn,
    OnHold,
}

impl ProjectStatus {
    /// The tag this status prints as.
    pub open spec fn spec_str(self) -> Seq<char> {
        match self {
            ProjectStatus::Draft => "Draft"@,
            ProjectStatus::Active => "Active"@,
            ProjectStatus::Ongoing => "Ongoing"@,
            ProjectStatus::Delivered => "Delivered"@,
            ProjectStatus::Overdue => "Overdue"@,
            ProjectStatus::Complete => "Complete"@,
            ProjectStatus::Withdrawn => "Withdrawn"@,
            ProjectStatus::OnHold => "OnHold"@,
        }
    }

    /// The status a tag names, if any.
    pub open spec fn spec_from_str(s: Seq<char>) -> Option<ProjectStatus> {
        if s == "Draft"@ {
            Some(ProjectStatus::Draft)
        } else if s == "Active"@ {
            Some(ProjectStatus::Active)
        } else if s == "Ongoing"@ {
            Some(ProjectStatus::Ongoing)
        } else if s == "Delivered"@ {
            Some(ProjectStatus::Delivered)
        } else if s == "Overdue"@ {
            Some(ProjectStatus::Overdue)
        } else if s == "Complete"@ {
            Some(ProjectStatus::Complete)
        } else if s == "Withdrawn"@ {
            Some(ProjectStatus::Withdrawn)
        } else if s == "OnHold"@ {
            Some(ProjectStatus::OnHold)
        } else {
            None
        }
    }

    pub fn from_str(role: &str) -> (r: Result<ProjectStatus, String>)
        ensures
            match ProjectStatus::spec_from_str(role@) {
                Some(v) => r == Ok::<ProjectStatus, String>(v),
                None => r matches Err(m) && m@ == "Project Status is not correct"@,
            },
    {
        if str_eq(role, "Draft") {
            Ok(ProjectStatus::Draft)
        } else if str_eq(role, "Active") {
            Ok(ProjectStatus::Active)
        } else if str_eq(role, "Ongoing") {
            Ok(ProjectStatus::Ongoing)
        } else if str_eq(role, "Delivered") {
            Ok(ProjectStatus::Delivered)
        } else if str_eq(role, "Overdue") {
            Ok(ProjectStatus::Overdue)
        } else if str_eq(role, "Complete") {
            Ok(ProjectStatus::Complete)
        } else if str_eq(role, "Withdrawn") {
            Ok(ProjectStatus::Withdrawn)
        } else if str_eq(role, "OnHold") {
            Ok(ProjectStatus::OnHold)
        } else {
            Err("Project Status is not correct".to_owned())
        }
    }

    pub fn as_str(&self) -> (r: &'static str)
        ensures
            r@ == self.spec_str(),
    {
        match self {
            ProjectStatus::Draft => "Draft",
            ProjectStatus::Active => "Active",
            ProjectStatus::Ongoing => "Ongoing",
            ProjectStatus::Delivered => "Delivered",
            ProjectStatus::Overdue => "Overdue",
            ProjectStatus::Complete => "Complete",
            ProjectStatus::Withdrawn => "Withdrawn",
            ProjectStatus::OnHold => "OnHold",
        }
    }
}

/// How ready the client is to hire.
#[derive(Debug, Clone, Copy, PartialEq, Eq, Structural)]
pub enum AppropriateStatus {
    ReadyToHire,
    Researching,
}

impl AppropriateStatus {
    pub open spec fn spec_str(self) -> Seq<char> {
        match self {
            AppropriateStatus::ReadyToHire => "Ready to Hire"@,
            AppropriateStatus::Researching => "Researching"@,
        }
    }

    pub open spec fn spec_from_str(s: Seq<char>) -> Option<AppropriateStatus> {
        if s == "Ready to Hire"@ {
            Some(AppropriateStatus::ReadyToHire)
        } else if s == "Researching"@ {
            Some(AppropriateStatus::Researching)
        } else {
            None
        }
    }

    pub fn from_str(value: &str) -> (r: Result<AppropriateStatus, String>)
        ensures
            match AppropriateStatus::spec_from_str(value@) {
                Some(v) => r == Ok::<AppropriateStatus, String>(v),
                None => r matches Err(m) && m@ == "Appropriate Status is not correct"@,
            },
    {
        if str_eq(value, "Ready to Hire") {
            Ok(AppropriateStatus::ReadyToHire)
        } else if str_eq(value, "Researching") {
            Ok(AppropriateStatus::Researching)
        } else {
            Err("Appropriate Status is not correct".to_owned())
        }
    }

    pub fn as_str(&self) -> (r: &'static str)
        ensures
            r@ == self.spec_str(),
    {
        match self {
            AppropriateStatus::ReadyToHire => "Ready to Hire",
            AppropriateStatus::Researching => "Researching",
        }
    }
}

/// Budget bracket of a project. Reading the `"$500k - $1m"` tag yields
/// `From100kTo500k`, as the tag tables have always had it.
#[derive(Debug, Clone, Copy, PartialEq, Eq, Structural)]
pub enum BudgetRange {
    Under100k,
    From100kTo500k,
    From500kTo1m,
    From1mTo5m,
    Over5m,
}

impl BudgetRange {
    pub open spec fn spec_str(self) -> Seq<char> {
        match self {
            BudgetRange::Under100k => "Under $100k"@,
            BudgetRange::From100kTo500k => "$100k - $500k"@,
            BudgetRange::From500kTo1m => "$500k - $1m"@,
            BudgetRange::From1mTo5m => "$1m - $5m"@,
            BudgetRange::Over5m => "Over $5m"@,
        }
    }

    pub open spec fn spec_from_str(s: Seq<char>) -> Option<BudgetRange> {
        if s == "Under $100k"@ {
            Some(BudgetRange::Under100k)
        } else if s == "$100k - $500k"@ {
            Some(BudgetRange::From100kTo500k)
        } else if s == "$500k - $1m"@ {
            Some(BudgetRange::From100kTo500k)
        } else if s == "$1m - $5m"@ {
            Some(BudgetRange::From1mTo5m)
        } else if s == "Over $5m"@ {
            Some(BudgetRange::Over5m)
        } else {
            None
        }
    }

    pub fn from_str(role: &str) -> (r: Result<BudgetRange, String>)
        ensures
            match BudgetRange::spec_from_str(role@) {
                Some(v) => r == Ok::<BudgetRange, String>(v),
                None => r matches Err(m) && m@ == "Budget Range is not correct"@,
            },
    {
        if str_eq(role, "Under $100k") {
            Ok(BudgetRange::Under100k)
        } else if str_eq(role, "$100k - $500k") {
            Ok(BudgetRange::From100kTo500k)
        } else if str_eq(role, "$500k - $1m") {
            Ok(BudgetRange::From100kTo500k)
        } else if str_eq(role, "$1m - $5m") {
            Ok(BudgetRange::From1mTo5m)
        } else if str_eq(role, "Over $5m") {
            Ok(BudgetRange::Over5m)
        } else {
            Err("Budget Range is not correct".to_owned())
        }
    }

    pub fn as_str(&self) -> (r: &'static str)
        ensures
            r@ == self.spec_str(),
    {
        match self {
            BudgetRange::Under100k => "Under $100k",
            BudgetRange::From100kTo500k => "$100k - $500k",
            BudgetRange::From500kTo1m => "$500k - $1m",
            BudgetRange::From1mTo5m => "$1m - $5m",
            BudgetRange::Over5m => "Over $5m",
        }
    }
}

/// Floor-area bracket of a project.
#[derive(Debug, Clone, Copy, PartialEq, Eq, Structural)]
pub enum SquareRange {
    Under2th,
    From2thTo5th,
    From5thTo10th,
    From10thTo20th,
    From20thTo100th,
    Over100th,
}

impl SquareRange {
    pub open spec fn spec_str(self) -> Seq<char> {
        match self {
            SquareRange::Under2th => "Under 2,000 sqft"@,
            SquareRange::From2thTo5th => "2,000 - 5,000 sqft"@,
            SquareRange::From5thTo10th => "5,000 - 10,000 sqft"@,
            SquareRange::From10thTo20th => "10,000 - 20,000 sqft"@,
            SquareRange::From20thTo100th => "20,000 - 100,000 sqft"@,
            SquareRange::Over100th => "Over 100,000 sqft"@,
        }
    }

    pub open spec fn spec_from_str(s: Seq<char>) -> Option<SquareRange> {
        if s == "Under 2,000 sqft"@ {
            Some(SquareRange::Under2th)
        } else if s == "2,000 - 5,000 sqft"@ {
            Some(SquareRange::From2thTo5th)
        } else if s == "5,000 - 10,000 sqft"@ {
            Some(SquareRange::From5thTo10th)
        } else if s == "10,000 - 20,000 sqft"@ {
            Some(SquareRange::From10thTo20th)
        } else if s == "20,000 - 100,000 sqft"@ {
            Some(SquareRange::From20thTo100th)
        } else if s == "Over 100,000 sqft"@ {
            Some(SquareRange::Over100th)
        } else {
            None
        }
    }

    pub fn from_str(role: &str) -> (r: Result<SquareRange, String>)
        ensures
            match SquareRange::spec_from_str(role@) {
                Some(v) => r == Ok::<SquareRange, String>(v),
                None => r matches Err(m) && m@ == "Square Range is not correct"@,
            },
    {
        if str_eq(role, "Under 2,000 sqft") {
            Ok(SquareRange::Under2th)
        } else if str_eq(role, "2,000 - 5,000 sqft") {
            Ok(SquareRange::From2thTo5th)
        } else if str_eq(role, "5,000 - 10,000 sqft") {
            Ok(SquareRange::From5thTo10th)
        } else if str_eq(role, "10,000 - 20,000 sqft") {
            Ok(SquareRange::From10thTo20th)
        } else if str_eq(role, "20,000 - 100,000 sqft") {
            Ok(SquareRange::From20thTo100th)
        } else if str_eq(role, "Over 100,000 sqft") {
            Ok(SquareRange::Over100th)
        } else {
            Err("Square Range is not correct".to_owned())
        }
    }

    pub fn as_str(&self) -> (r: &'static str)
        ensures
            r@ == self.spec_str(),
    {
        match self {
            SquareRange::Under2th => "Under 2,000 sqft",
            SquareRange::From2thTo5th => "2,000 - 5,000 sqft",
            SquareRange::From5thTo10th => "5,000 - 10,000 sqft",
            SquareRange::From10thTo20th => "10,000 - 20,000 sqft",
            SquareRange::From20thTo100th => "20,000 - 100,000 sqft",
            SquareRange::Over100th => "Over 100,000 sqft",
        }
    }
}

/// Kind of commercial work a project asks for.
#[derive(Debug, Clone, Copy, PartialEq, Eq, Structural)]
pub enum CommercialWork {
    Renovation,
    SelectingFurnitureAndEquipment,
    EvaluatingForSustainability,
    AllOfTheAbove,
}

impl CommercialWork {
    pub open spec fn spec_str(self) -> Seq<char> {
        match self {
            CommercialWork::Renovation => "Renovation"@,
            CommercialWork::SelectingFurnitureAndEquipment => "Selecting furniture and equipment"@,
            CommercialWork::EvaluatingForSustainability => "Evaluating for sustainability"@,
            CommercialWork::AllOfTheAbove => "All of the above"@,
        }
    }

    pub open spec fn spec_from_str(s: Seq<char>) -> Option<CommercialWork> {
        if s == "Renovation"@ {
            Some(CommercialWork::Renovation)
        } else if s == "Selecting furniture and equipment"@ {
            Some(CommercialWork::SelectingFurnitureAndEquipment)
        } else if s == "Evaluating for sustainability"@ {
            Some(CommercialWork::EvaluatingForSustainability)
        } else if s == "All of the above"@ {
            Some(CommercialWork::AllOfTheAbove)
        } else {
            None
        }
    }

    pub fn from_str(role: &str) -> (r: Result<CommercialWork, String>)
        ensures
            match CommercialWork::spec_from_str(role@) {
                Some(v) => r == Ok::<CommercialWork, String>(v),
                None => r matches Err(m) && m@ == "Commercial Work is not correct"@,
            },
    {
        if str_eq(role, "Renovation") {
            Ok(CommercialWork::Renovation)
        } else if str_eq(role, "Selecting furniture and equipment") {
            Ok(CommercialWork::SelectingFurnitureAndEquipment)
        } else if str_eq(role, "Evaluating for sustainability") {
            Ok(CommercialWork::EvaluatingForSustainability)
        } else if str_eq(role, "All of the above") {
            Ok(CommercialWork::AllOfTheAbove)
        } else {
            Err("Commercial Work is not correct".to_owned())
        }
    }

    pub fn as_str(&self) -> (r: &'static str)
        ensures
            r@ == self.spec_str(),
    {
        match self {
            CommercialWork::Renovation => "Renovation",
            CommercialWork::SelectingFurnitureAndEquipment => "Selecting furniture and equipment",
            CommercialWork::EvaluatingForSustainability => "Evaluating for sustainability",
            CommercialWork::AllOfTheAbove => "All of the above",
        }
    }
}

/// What the client already has in hand. The tag `NoTeamOrDesign` reads
/// without a closing parenthesis and prints with one; both spellings are
/// kept as the tag tables have them.
#[derive(Debug, Clone, Copy, PartialEq, Eq, Structural)]
pub enum ArchitecturalServices {
    Space,
    ArchitectOrdDesigner,
    Drawings,
    SubmittedForAPermit,
    ApprovedForAPermit,
    Contractor,
    ReceivedPricingFromAContractor,
    NoTeamOrDesign,
}

impl ArchitecturalServices {
    pub open spec fn spec_str(self) -> Seq<char> {
        match self {
            ArchitecturalServices::Space => "I have the space (rent or own)"@,
            ArchitecturalServices::ArchitectOrdDesigner => "I have an architect or designer"@,
            ArchitecturalServices::Drawings => "I have drawings of my design"@,
            ArchitecturalServices::SubmittedForAPermit => "The project has been submitted for a permit"@,
            ArchitecturalServices::ApprovedForAPermit => "The project has been approved for a permit"@,
            ArchitecturalServices::Contractor => "I have a contractor"@,
            ArchitecturalServices::ReceivedPricingFromAContractor => "I have received pricing from a contractor"@,
            ArchitecturalServices::NoTeamOrDesign => "I know what I want but do not have the team or design yet)"@,
        }
    }

    pub open spec fn spec_from_str(s: Seq<char>) -> Option<ArchitecturalServices> {
        if s == "I have the space (rent or own)"@ {
            Some(ArchitecturalServices::Space)
        } else if s == "I have an architect or designer"@ {
            Some(ArchitecturalServices::ArchitectOrdDesigner)
        } else if s == "I have drawings of my design"@ {
            Some(ArchitecturalServices::Drawings)
        } else if s == "The project has been submitted for a permit"@ {
            Some(ArchitecturalServices::SubmittedForAPermit)
        } else if s == "I have a contractor"@ {
            Some(ArchitecturalServices::Contractor)
        } else if s == "I have received pricing from a contractor"@ {
            Some(ArchitecturalServices::ReceivedPricingFromAContractor)
        } else if s == "I know what I want but do not have the team or design yet"@ {
            Some(ArchitecturalServices::NoTeamOrDesign)
        } else if s == "The project has been approved for a permit"@ {
            Some(ArchitecturalServices::ApprovedForAPermit)
        } else {
            None
        }
    }

    pub fn from_str(role: &str) -> (r: Result<ArchitecturalServices, String>)
        ensures
            match ArchitecturalServices::spec_from_str(role@) {
                Some(v) => r == Ok::<ArchitecturalServices, String>(v),
                None => r matches Err(m) && m@ == "Architectural Service is not correct"@,
            },
    {
        if str_eq(role, "I have the space (rent or own)") {
            Ok(ArchitecturalServices::Space)
        } else if str_eq(role, "I have an architect or designer") {
            Ok(ArchitecturalServices::ArchitectOrdDesigner)
        } else if str_eq(role, "I have drawings of my design") {
            Ok(ArchitecturalServices::Drawings)
        } else if str_eq(role, "The project has been submitted for a permit") {
            Ok(ArchitecturalServices::SubmittedForAPermit)
        } else if str_eq(role, "I have a contractor") {
            Ok(ArchitecturalServices::Contractor)
        } else if str_eq(role, "I have received pricing from a contractor") {
            Ok(ArchitecturalServices::ReceivedPricingFromAContractor)
        } else if str_eq(role, "I know what I want but do not have the team or design yet") {
            Ok(ArchitecturalServices::NoTeamOrDesign)
        } else if str_eq(role, "The project has been approved for a permit") {
            Ok(ArchitecturalServices::ApprovedForAPermit)
        } else {
            Err("Architectural Service is not correct".to_owned())
        }
    }

    pub fn as_str(&self) -> (r: &'static str)
        ensures
            r@ == self.spec_str(),
    {
        match self {
            ArchitecturalServices::Space => "I have the space (rent or own)",
            ArchitecturalServices::ArchitectOrdDesigner => "I have an architect or designer",
            ArchitecturalServices::Drawings => "I have drawings of my design",
            ArchitecturalServices::SubmittedForAPermit => "The project has been submitted for a permit",
            ArchitecturalServices::ApprovedForAPermit => "The project has been approved for a permit",
            ArchitecturalServices::Contractor => "I have a contractor",
            ArchitecturalServices::ReceivedPricingFromAContractor => "I have received pricing from a contractor",
            ArchitecturalServices::NoTeamOrDesign => "I know what I want but do not have the team or design yet)",
        }
    }
}

} // verus!

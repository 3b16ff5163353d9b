//! The capital directory: an ordered, immutable list of state/capital pairs.
//! An entry's position in the list is its stable identifier for a whole
//! session.

use vstd::prelude::*;

verus! {

/// One state with its capital. Entries are built once, at startup, and never
/// change afterwards.
pub struct CapitalEntry {
    pub state: String,
    pub capital: String,
}

impl CapitalEntry {
    /// Builds an entry carrying exactly the two given pieces of text.
    pub fn new(state: &str, capital: &str) -> (e: CapitalEntry)
        ensures
            e.state@ == state@,
            e.capital@ == capital@,
    {
        CapitalEntry { state: state.to_owned(), capital: capital.to_owned() }
    }
}

/// The fixed fifty-entry table of U.S. states and their capitals, entry by
/// entry, in the order the directory lists them.
pub open spec fn is_us_capitals_table(v: Seq<CapitalEntry>) -> bool {
    &&& v.len() == 50
    &&& v[0].state@ == "Alabama"@ && v[0].capital@ == "Montgomery"@
    &&& v[1].state@ == "Alaska"@ && v[1].capital@ == "Juneau"@
    &&& v[2].state@ == "Arizona"@ && v[2].capital@ == "Phoenix"@
    &&& v[3].state@ == "Arkansas"@ && v[3].capital@ == "Little Rock"@
    &&& v[4].state@ == "California"@ && v[4].capital@ == "Sacramento"@
    &&& v[5].state@ == "Colorado"@ && v[5].capital@ == "Denver"@
    &&& v[6].state@ == "Connecticut"@ && v[6].capital@ == "Hartford"@
    &&& v[7].state@ == "Delaware"@ && v[7].capital@ == "Dover"@
    &&& v[8].state@ == "Florida"@ && v[8].capital@ == "Tallahassee"@
    &&& v[9].state@ == "Georgia"@ && v[9].capital@ == "Atlanta"@
    &&& v[10].state@ == "Hawaii"@ && v[10].capital@ == "Honolulu"@
    &&& v[11].state@ == "Idaho"@ && v[11].capital@ == "Boise"@
    &&& v[12].state@ == "Illinois"@ && v[12].capital@ == "Springfield"@
    &&& v[13].state@ == "Indiana"@ && v[13].capital@ == "Indianapolis"@
    &&& v[14].state@ == "Iowa"@ && v[14].capital@ == "Des Moines"@
    &&& v[15].state@ == "Kansas"@ && v[15].capital@ == "Topeka"@
    &&& v[16].state@ == "Kentucky"@ && v[16].capital@ == "Frankfort"@
    &&& v[17].state@ == "Louisiana"@ && v[17].capital@ == "Baton Rouge"@
    &&& v[18].state@ == "Maine"@ && v[18].capital@ == "Augusta"@
    &&& v[19].state@ == "Maryland"@ && v[19].capital@ == "Annapolis"@
    &&& v[20].state@ == "Massachusetts"@ && v[20].capital@ == "Boston"@
    &&& v[21].state@ == "Michigan"@ && v[21].capital@ == "Lansing"@
    &&& v[22].state@ == "Minnesota"@ && v[22].capital@ == "Saint Paul"@
    &&& v[23].state@ == "Mississippi"@ && v[23].capital@ == "Jackson"@
    &&& v[24].state@ == "Missouri"@ && v[24].capital@ == "Jefferson City"@
    &&& v[25].state@ == "Montana"@ && v[25].capital@ == "Helena"@
    &&& v[26].state@ == "Nebraska"@ && v[26].capital@ == "Lincoln"@
    &&& v[27].state@ == "Nevada"@ && v[27].capital@ == "Carson City"@
    &&& v[28].state@ == "New Hampshire"@ && v[28].capital@ == "Concord"@
    &&& v[29].state@ == "New Jersey"@ && v[29].capital@ == "Trenton"@
    &&& v[30].state@ == "New Mexico"@ && v[30].capital@ == "Santa Fe"@
    &&& v[31].state@ == "New York"@ && v[31].capital@ == "Albany"@
    &&& v[32].state@ == "North Carolina"@ && v[32].capital@ == "Raleigh"@
    &&& v[33].state@ == "North Dakota"@ && v[33].capital@ == "Bismarck"@
    &&& v[34].state@ == "Ohio"@ && v[34].capital@ == "Columbus"@
    &&& v[35].state@ == "Oklahoma"@ && v[35].capital@ == "Oklahoma City"@
    &&& v[36].state@ == "Oregon"@ && v[36].capital@ == "Salem"@
    &&& v[37].state@ == "Pennsylvania"@ && v[37].capital@ == "Harrisburg"@
    &&& v[38].state@ == "Rhode Island"@ && v[38].capital@ == "Providence"@
    &&& v[39].state@ == "South Carolina"@ && v[39].capital@ == "Columbia"@
    &&& v[40].state@ == "South Dakota"@ && v[40].capital@ == "Pierre"@
    &&& v[41].state@ == "Tennessee"@ && v[41].capital@ == "Nashville"@
    &&& v[42].state@ == "Texas"@ && v[42].capital@ == "Austin"@
    &&& v[43].state@ == "Utah"@ && v[43].capital@ == "Salt Lake City"@
    &&& v[44].state@ == "Vermont"@ && v[44].capital@ == "Montpelier"@
    &&& v[45].state@ == "Virginia"@ && v[45].capital@ == "Richmond"@
    &&& v[46].state@ == "Washington"@ && v[46].capital@ == "Olympia"@
    &&& v[47].state@ == "West Virginia"@ && v[47].capital@ == "Charleston"@
    &&& v[48].state@ == "Wisconsin"@ && v[48].capital@ == "Madison"@
    &&& v[49].state@ == "Wyoming"@ && v[49].capital@ == "Cheyenne"@
}

/// The fifty U.S. states with their capitals, in a fixed order.
#[verifier::rlimit(50)]
pub fn us_state_capitals() -> (v: Vec<CapitalEntry>)
    ensures
        is_us_capitals_table(v@),
{
    let mut v: Vec<CapitalEntry> = Vec::new();
    v.push(CapitalEntry::new("Alabama", "Montgomery"));
    v.push(CapitalEntry::new("Alaska", "Juneau"));
    v.push(CapitalEntry::new("Arizona", "Phoenix"));
    v.push(CapitalEntry::new("Arkansas", "Little Rock"));
    v.push(CapitalEntry::new("California", "Sacramento"));
    v.push(CapitalEntry::new("Colorado", "Denver"));
    v.push(CapitalEntry::new("Connecticut", "Hartford"));
    v.push(CapitalEntry::new("Delaware", "Dover"));
    v.push(CapitalEntry::new("Florida", "Tallahassee"));
    v.push(CapitalEntry::new("Georgia", "Atlanta"));
    v.push(CapitalEntry::new("Hawaii", "Honolulu"));
    v.push(CapitalEntry::new("Idaho", "Boise"));
    v.push(CapitalEntry::new("Illinois", "Springfield"));
    v.push(CapitalEntry::new("Indiana", "Indianapolis"));
    v.push(CapitalEntry::new("Iowa", "Des Moines"));
    v.push(CapitalEntry::new("Kansas", "Topeka"));
    v.push(CapitalEntry::new("Kentucky", "Frankfort"));
    v.push(CapitalEntry::new("Louisiana", "Baton Rouge"));
    v.push(CapitalEntry::new("Maine", "Augusta"));
    v.push(CapitalEntry::new("Maryland", "Annapolis"));
    v.push(CapitalEntry::new("Massachusetts", "Boston"));
    v.push(CapitalEntry::new("Michigan", "Lansing"));
    v.push(CapitalEntry::new("Minnesota", "Saint Paul"));
    v.push(CapitalEntry::new("Mississippi", "Jackson"));
    v.push(CapitalEntry::new("Missouri", "Jefferson City"));
    v.push(CapitalEntry::new("Montana", "Helena"));
    v.push(CapitalEntry::new("Nebraska", "Lincoln"));
    v.push(CapitalEntry::new("Nevada", "Carson City"));
    v.push(CapitalEntry::new("New Hampshire", "Concord"));
    v.push(CapitalEntry::new("New Jersey", "Trenton"));
    v.push(CapitalEntry::new("New Mexico", "Santa Fe"));
    v.push(CapitalEntry::new("New York", "Albany"));
    v.push(CapitalEntry::new("North Carolina", "Raleigh"));
    v.push(CapitalEntry::new("North Dakota", "Bismarck"));
    v.push(CapitalEntry::new("Ohio", "Columbus"));
    v.push(CapitalEntry::new("Oklahoma", "Oklahoma City"));
    v.push(CapitalEntry::new("Oregon", "Salem"));
    v.push(CapitalEntry::new("Pennsylvania", "Harrisburg"));
    v.push(CapitalEntry::new("Rhode Island", "Providence"));
    v.push(CapitalEntry::new("South Carolina", "Columbia"));
    v.push(CapitalEntry::new("South Dakota", "Pierre"));
    v.push(CapitalEntry::new("Tennessee", "Nashville"));
    v.push(CapitalEntry::new("Texas", "Austin"));
    v.push(CapitalEntry::new("Utah", "Salt Lake City"));
    v.push(CapitalEntry::new("Vermont", "Montpelier"));
    v.push(CapitalEntry::new("Virginia", "Richmond"));
    v.push(CapitalEntry::new("Washington", "Olympia"));
    v.push(CapitalEntry::new("West Virginia", "Charleston"));
    v.push(CapitalEntry::new("Wisconsin", "Madison"));
    v.push(CapitalEntry::new("Wyoming", "Cheyenne"));
    v
}

} // verus!

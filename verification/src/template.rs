//! The roster as the template sees it, and the dictionary that the
//! engine is handed.

use crate::document::Item;
use crate::text::texts_of;
use crate::schema::SchemaFault;
use crate::values::{
    array_items, array_push, dict_entries, dict_insert, empty_array, empty_dict, flag_value,
    list_value, no_entries, record_value, text_value, Datum,
};
use crate::volunteers::{schema_outcome, Volunteer, VolunteerView};
use typst::foundations::{Array, Dict};
use vstd::prelude::*;

verus! {

/// A volunteer as the template sees it.
#[derive(Debug, Clone)]
pub struct TemplateVolunteer {
    pub first_name: String,
    pub last_name: String,
    pub barcode: String,
    pub qualified: bool,
    pub hide_qualified: bool,
    pub picture: String,
    pub deployment: Vec<String>,
    pub licenses: Vec<String>,
    pub qualifications: Vec<String>,
}

/// The mathematical content of a [`TemplateVolunteer`].
pub struct TemplateVolunteerView {
    pub first_name: Seq<char>,
    pub last_name: Seq<char>,
    pub barcode: Seq<char>,
    pub qualified: bool,
    pub hide_qualified: bool,
    pub picture: Seq<char>,
    pub deployment: Seq<Seq<char>>,
    pub licenses: Seq<Seq<char>>,
    pub qualifications: Seq<Seq<char>>,
}

impl View for TemplateVolunteer {
    type V = TemplateVolunteerView;

    open spec fn view(&self) -> TemplateVolunteerView {
        TemplateVolunteerView {
            first_name: self.first_name@,
            last_name: self.last_name@,
            barcode: self.barcode@,
            qualified: self.qualified,
            hide_qualified: self.hide_qualified,
            picture: self.picture@,
            deployment: texts_of(self.deployment@),
            licenses: texts_of(self.licenses@),
            qualifications: texts_of(self.qualifications@),
        }
    }
}

/// What the template is shown of a record: every text and every list as it
/// is, and the hide indicator as `false` where the record has none.
pub open spec fn adapted(record: VolunteerView) -> TemplateVolunteerView {
    TemplateVolunteerView {
        first_name: record.first_name,
        last_name: record.last_name,
        barcode: record.barcode,
        qualified: record.qualified,
        hide_qualified: match record.hide_indicator {
            Some(flag) => flag,
            None => false,
        },
        picture: record.picture,
        deployment: record.deployment,
        licenses: record.licenses,
        qualifications: record.qualifications,
    }
}

impl From<Volunteer> for TemplateVolunteer {
    fn from(volunteer: Volunteer) -> (shown: TemplateVolunteer) {
        TemplateVolunteer {
            first_name: volunteer.first_name,
            last_name: volunteer.last_name,
            barcode: volunteer.barcode,
            qualified: volunteer.qualified,
            hide_qualified: match volunteer.hide_indicator {
                Some(flag) => flag,
                None => false,
            },
            picture: volunteer.picture,
            deployment: volunteer.deployment,
            licenses: volunteer.licenses,
            qualifications: volunteer.qualifications,
        }
    }
}

impl vstd::std_specs::convert::FromSpecImpl<Volunteer> for TemplateVolunteer {
    open spec fn obeys_from_spec() -> bool {
        true
    }

    open spec fn from_spec(volunteer: Volunteer) -> TemplateVolunteer {
        TemplateVolunteer {
            first_name: volunteer.first_name,
            last_name: volunteer.last_name,
            barcode: volunteer.barcode,
            qualified: volunteer.qualified,
            hide_qualified: match volunteer.hide_indicator {
                Some(flag) => flag,
                None => false,
            },
            picture: volunteer.picture,
            deployment: volunteer.deployment,
            licenses: volunteer.licenses,
            qualifications: volunteer.qualifications,
        }
    }
}

/// A list of strings as the template gets it: the same strings in the same
/// order.
pub open spec fn text_list(texts: Seq<Seq<char>>) -> Datum {
    Datum::List(texts.map_values(|text: Seq<char>| Datum::Text(text)))
}

/// The dictionary that stands for one volunteer.
pub open spec fn volunteer_record(shown: TemplateVolunteerView) -> Map<Seq<char>, Datum> {
    no_entries().insert("first_name"@, Datum::Text(shown.first_name)).insert(
        "last_name"@,
        Datum::Text(shown.last_name),
    ).insert("barcode"@, Datum::Text(shown.barcode)).insert(
        "qualified"@,
        Datum::Flag(shown.qualified),
    ).insert("picture"@, Datum::Text(shown.picture)).insert(
        "deployment"@,
        text_list(shown.deployment),
    ).insert("licenses"@, text_list(shown.licenses)).insert(
        "hide_qualified"@,
        Datum::Flag(shown.hide_qualified),
    ).insert("qualifications"@, text_list(shown.qualifications))
}

/// The mathematical content of each volunteer of a roster, in its order.
pub open spec fn roster_view(volunteers: Seq<TemplateVolunteer>) -> Seq<TemplateVolunteerView> {
    volunteers.map_values(|shown: TemplateVolunteer| shown@)
}

/// The dictionary that the engine is handed: the volunteers' dictionaries,
/// in the order of the roster, under the one key `volunteers`.
pub open spec fn inputs_record(roster: Seq<TemplateVolunteerView>) -> Map<Seq<char>, Datum> {
    no_entries().insert(
        "volunteers"@,
        Datum::List(
            roster.map_values(|shown: TemplateVolunteerView| Datum::Record(volunteer_record(shown))),
        ),
    )
}

/// Turns a list of strings into an engine array, keeping the order.
pub fn text_array(texts: &Vec<String>) -> (array: Array)
    ensures
        Datum::List(array_items(array)) == text_list(texts_of(texts@)),
{
    let mut array = empty_array();
    let mut index: usize = 0;
    while index < texts.len()
        invariant
            index <= texts.len(),
            array_items(array) == texts_of(texts@).take(index as int).map_values(
                |text: Seq<char>| Datum::Text(text),
            ),
        decreases texts.len() - index,
    {
        let value = text_value(texts[index].as_str());
        array_push(&mut array, value);
        index = index + 1;
        assert(array_items(array) =~= texts_of(texts@).take(index as int).map_values(
            |text: Seq<char>| Datum::Text(text),
        ));
    }
    assert(texts_of(texts@).take(index as int) =~= texts_of(texts@));
    array
}

impl TemplateVolunteer {
    /// The dictionary that stands for the volunteer in the engine's input.
    pub fn to_dict(&self) -> (dict: Dict)
        ensures
            dict_entries(dict) == volunteer_record(self@),
            dict_entries(dict)["deployment"@] == text_list(self@.deployment),
            dict_entries(dict)["licenses"@] == text_list(self@.licenses),
            dict_entries(dict)["qualifications"@] == text_list(self@.qualifications),
            dict_entries(dict)["hide_qualified"@] == Datum::Flag(self.hide_qualified),
    {
        proof {
            lemma_keys_differ();
        }
        let mut dict = empty_dict();
        dict_insert(&mut dict, "first_name", text_value(self.first_name.as_str()));
        dict_insert(&mut dict, "last_name", text_value(self.last_name.as_str()));
        dict_insert(&mut dict, "barcode", text_value(self.barcode.as_str()));
        dict_insert(&mut dict, "qualified", flag_value(self.qualified));
        dict_insert(&mut dict, "picture", text_value(self.picture.as_str()));
        dict_insert(&mut dict, "deployment", list_value(text_array(&self.deployment)));
        dict_insert(&mut dict, "licenses", list_value(text_array(&self.licenses)));
        dict_insert(&mut dict, "hide_qualified", flag_value(self.hide_qualified));
        dict_insert(&mut dict, "qualifications", list_value(text_array(&self.qualifications)));
        dict
    }
}

/// Shows each volunteer of a roster to the template, in the same order.
pub fn adapt_roster(volunteers: Vec<Volunteer>) -> (roster: Vec<TemplateVolunteer>)
    ensures
        roster_view(roster@) == volunteers@.map_values(|volunteer: Volunteer| adapted(volunteer@)),
{
    let mut roster: Vec<TemplateVolunteer> = Vec::new();
    let ghost all = volunteers@;
    for volunteer in it: volunteers
        invariant
            it.seq() == all,
            roster_view(roster@) == all.take(it.index() as int).map_values(
                |volunteer: Volunteer| adapted(volunteer@),
            ),
    {
        let ghost before = roster_view(roster@);
        let ghost record = volunteer@;
        assert(all[it.index() as int]@ == record);
        let shown = TemplateVolunteer::from(volunteer);
        assert(shown@ == adapted(record));
        roster.push(shown);
        assert(roster_view(roster@) =~= before.push(adapted(record)));
        assert(roster_view(roster@) =~= all.take(it.index() + 1).map_values(
            |volunteer: Volunteer| adapted(volunteer@),
        ));
    }
    assert(all.take(all.len() as int) =~= all);
    roster
}

/// The input of the template: the roster.
#[derive(Debug)]
pub struct TemplateInputs {
    pub volunteers: Vec<TemplateVolunteer>,
}

impl TemplateInputs {
    /// The input for a roster.
    pub fn new(volunteers: Vec<TemplateVolunteer>) -> (inputs: TemplateInputs)
        ensures
            inputs.volunteers == volunteers,
    {
        TemplateInputs { volunteers }
    }

    /// The dictionary that the engine is handed.
    pub fn to_dict(&self) -> (dict: Dict)
        ensures
            dict_entries(dict) == inputs_record(roster_view(self.volunteers@)),
            self.volunteers@.len() == 0 ==> dict_entries(dict) == no_entries().insert(
                "volunteers"@,
                Datum::List(Seq::empty()),
            ),
    {
        let mut records = empty_array();
        let mut index: usize = 0;
        while index < self.volunteers.len()
            invariant
                index <= self.volunteers.len(),
                array_items(records) == roster_view(self.volunteers@).take(index as int).map_values(
                    |shown: TemplateVolunteerView| Datum::Record(volunteer_record(shown)),
                ),
            decreases self.volunteers.len() - index,
        {
            let record = self.volunteers[index].to_dict();
            array_push(&mut records, record_value(record));
            index = index + 1;
            assert(array_items(records) =~= roster_view(self.volunteers@).take(
                index as int,
            ).map_values(|shown: TemplateVolunteerView| Datum::Record(volunteer_record(shown))));
        }
        assert(roster_view(self.volunteers@).take(index as int) =~= roster_view(
            self.volunteers@,
        ));
        proof {
            if self.volunteers@.len() == 0 {
                assert(array_items(records) =~= Seq::empty());
            }
        }
        let mut dict = empty_dict();
        dict_insert(&mut dict, "volunteers", list_value(records));
        dict
    }
}

/// The keys of the list entries and of the hide indicator differ from the
/// keys that are inserted after them.
proof fn lemma_keys_differ()
    ensures
        "deployment"@ != "licenses"@,
        "deployment"@ != "hide_qualified"@,
        "deployment"@ != "qualifications"@,
        "licenses"@ != "hide_qualified"@,
        "licenses"@ != "qualifications"@,
        "hide_qualified"@ != "qualifications"@,
{
    reveal_strlit("deployment");
    reveal_strlit("licenses");
    reveal_strlit("hide_qualified");
    reveal_strlit("qualifications");
    assert("deployment"@.len() == 10);
    assert("licenses"@.len() == 8);
    assert("hide_qualified"@.len() == 14);
    assert("qualifications"@.len() == 14);
    assert("hide_qualified"@[0] != "qualifications"@[0]);
}

/// The conversion of a volunteer shows what [`adapted`] says of its record.
pub proof fn law_conversion_adapts(volunteer: Volunteer)
    ensures
        <TemplateVolunteer as vstd::std_specs::convert::FromSpec<Volunteer>>::from_spec(
            volunteer,
        )@ == adapted(volunteer@),
{
}

/// The hide indicator is shown as `false` where the description file omits
/// it, and as it stands where the file has it; the volunteer's dictionary
/// holds it under `hide_qualified`.
pub proof fn law_hide_indicator_defaults(doc: Map<Seq<char>, Item>, record: VolunteerView)
    requires
        schema_outcome(doc) == Ok::<VolunteerView, SchemaFault>(record),
    ensures
        !doc.contains_key("hide_indicator"@) ==> record.hide_indicator is None && !adapted(
            record,
        ).hide_qualified,
        doc.contains_key("hide_indicator"@) ==> doc["hide_indicator"@] == Item::Flag(
            adapted(record).hide_qualified,
        ) && record.hide_indicator == Some(adapted(record).hide_qualified),
        volunteer_record(adapted(record))["hide_qualified"@] == Datum::Flag(
            adapted(record).hide_qualified,
        ),
{
    lemma_keys_differ();
}

/// The adapter keeps the order of every list: the template gets the labels
/// of `deployment`, `licenses` and `qualifications` one for one, as the
/// record has them.
pub proof fn law_lists_keep_order(record: VolunteerView)
    ensures
        adapted(record).deployment == record.deployment,
        adapted(record).licenses == record.licenses,
        adapted(record).qualifications == record.qualifications,
        volunteer_record(adapted(record))["deployment"@] == text_list(record.deployment),
        volunteer_record(adapted(record))["licenses"@] == text_list(record.licenses),
        volunteer_record(adapted(record))["qualifications"@] == text_list(record.qualifications),
        forall|labels: Seq<Seq<char>>|
            (#[trigger] text_list(labels))->List_0.len() == labels.len(),
        forall|labels: Seq<Seq<char>>, i: int|
            0 <= i < labels.len() ==> (#[trigger] text_list(labels)->List_0[i]) == Datum::Text(
                labels[i],
            ),
{
    lemma_keys_differ();
}

} // verus!

//! The relations between works.

use vstd::prelude::*;
use serde_json::Value;
use crate::error::DecodeError;
use crate::json::{
    Json, copy_of, find, fits_flag, fits_i64, fits_text, flag_field, flag_in, i64_field, i64_in,
    is_object, member, text_field, text_in, tree, tree_in, trees,
};
use crate::text::{fold, folded, same_text};

verus! {

/// The edge from a work to a work that it is related to.
#[derive(Debug, Clone, PartialEq)]
pub struct Relation {
    /// The identifier of the relation.
    pub id: i64,
    /// How the two works are related.
    pub relation_type: RelationType,
    /// Whether the studio of the other work is the main studio of this one.
    pub is_main_studio: bool,
    /// The other work, as the tree that came.
    pub media: Option<Value>,
}

/// What a relation holds, as mathematical values.
pub struct RelationView {
    pub id: i64,
    pub relation_type: RelationType,
    pub is_main_studio: bool,
    pub media: Option<Json>,
}

impl DeepView for Relation {
    type V = RelationView;

    open spec fn deep_view(&self) -> RelationView {
        RelationView {
            id: self.id,
            relation_type: self.relation_type,
            is_main_studio: self.is_main_studio,
            media: tree_in(self.media),
        }
    }
}

impl View for Relation {
    type V = RelationView;

    open spec fn view(&self) -> RelationView {
        self.deep_view()
    }
}

impl Relation {
    /// A relation in which nothing is given.
    pub open spec fn default_view() -> RelationView {
        RelationView {
            id: 0,
            relation_type: RelationType::Other,
            is_main_studio: false,
            media: None,
        }
    }

    /// Whether the object `v` has every member that a relation cannot do
    /// without.
    pub open spec fn complete(v: Json) -> bool {
        &&& member(v, "id"@) is Some
    }

    /// Whether every member of the object `v` that a relation reads, where it
    /// is present, has the shape expected of it.
    pub open spec fn shaped(v: Json) -> bool {
        &&& fits_i64(member(v, "id"@))
        &&& fits_text(member(v, "relationType"@))
        &&& fits_flag(member(v, "isMainStudio"@))
    }

    /// The relation that the object `v` describes, member by member.
    pub open spec fn view_of(v: Json) -> RelationView {
        RelationView {
            id: i64_in(member(v, "id"@)).unwrap(),
            relation_type: match RelationType::held(member(v, "relationType"@)) {
                Some(x) => x,
                None => RelationType::Other,
            },
            is_main_studio: match flag_in(member(v, "isMainStudio"@)) {
                Some(x) => x,
                None => false,
            },
            media: member(v, "node"@),
        }
    }

    /// What decoding the tree `v` gives: a relation, or the reason why `v`
    /// describes none.
    pub open spec fn decode(v: Json) -> Result<RelationView, DecodeError> {
        if !(v is Object) {
            Err(DecodeError::WrongShape)
        } else if !Relation::complete(v) {
            Err(DecodeError::MissingField)
        } else if !Relation::shaped(v) {
            Err(DecodeError::WrongShape)
        } else {
            Ok(Relation::view_of(v))
        }
    }

    /// What decoding `v` gives where it succeeds, and a relation in which
    /// nothing is given where it fails.
    pub open spec fn lenient(v: Json) -> RelationView {
        match Relation::decode(v) {
            Ok(x) => x,
            Err(_) => Relation::default_view(),
        }
    }

    /// What the elements of `items` hold, each decoded leniently, in their
    /// order.
    pub open spec fn views_of(items: Seq<Json>) -> Seq<RelationView> {
        Seq::new(items.len(), |i: int| Relation::lenient(items[i]))
    }

    /// Decodes the tree `v` into a relation. Members that the record does not
    /// know are passed over.
    pub fn from_value(v: &Value) -> (r: Result<Relation, DecodeError>)
        ensures
            match Relation::decode(tree(*v)) {
                Ok(decoded) => r matches Ok(x) && x@ == decoded,
                Err(reason) => r matches Err(e) && e == reason,
            },
    {
        if !is_object(v) {
            return Err(DecodeError::WrongShape);
        }
        if find(v, "id").is_none() {
            return Err(DecodeError::MissingField);
        }
        let id = i64_field(v, "id")?.unwrap();
        let relation_type = match RelationType::field(v, "relationType")? {
            Some(x) => x,
            None => RelationType::Other,
        };
        let is_main_studio = match flag_field(v, "isMainStudio")? {
            Some(x) => x,
            None => false,
        };
        let media = match find(v, "node") {
            Some(m) => Some(copy_of(m)),
            None => None,
        };
        Ok(Relation {
            id,
            relation_type,
            is_main_studio,
            media,
        })
    }

    /// Decodes the tree `v` into a relation, and gives the default where `v`
    /// describes none.
    pub fn from_value_or_default(v: &Value) -> (r: Relation)
        ensures
            r.deep_view() == Relation::lenient(tree(*v)),
    {
        match Relation::from_value(v) {
            Ok(x) => x,
            Err(_) => Relation::default(),
        }
    }

    /// Decodes every element of `items` leniently, in their order.
    pub fn from_values_or_default(items: &Vec<Value>) -> (r: Vec<Relation>)
        ensures
            r.deep_view() == Relation::views_of(trees(items@)),
    {
        let mut out: Vec<Relation> = Vec::new();
        let mut i: usize = 0;
        while i < items.len()
            invariant
                i <= items.len(),
                out@.len() == i,
                forall|j: int|
                    0 <= j < i ==> (#[trigger] out@[j]).deep_view() == Relation::lenient(
                        tree(items@[j]),
                    ),
            decreases items.len() - i,
        {
            out.push(Relation::from_value_or_default(&items[i]));
            i = i + 1;
        }
        assert(out.deep_view() =~= Relation::views_of(trees(items@)));
        out
    }
}

impl Default for Relation {
    /// A relation in which nothing is given.
    fn default() -> (r: Relation)
        ensures
            r.deep_view() == Relation::default_view(),
    {
        Relation {
            id: 0,
            relation_type: RelationType::Other,
            is_main_studio: false,
            media: None,
        }
    }
}

/// How one work relates to another.
#[derive(Debug, Clone, PartialEq, Eq, Hash, Structural)]
pub enum RelationType {
    /// The other work is an adaptation of this one.
    Adaptation,
    /// The other work comes before this one.
    Prequel,
    /// The other work comes after this one.
    Sequel,
    /// The other work is the one that this one was spun off from.
    Parent,
    /// The other work tells a story beside this one.
    SideStory,
    /// The two works share characters.
    Character,
    /// The other work is a shortened form of this one.
    Summary,
    /// The other work is another version of this one.
    Alternative,
    /// The other work was spun off from this one.
    SpinOff,
    /// The works are related in another way.
    Other,
    /// The other work is what this one was made from.
    Source,
    /// The other work compiles this one.
    Compilation,
    /// The other work is contained in this one.
    Contains,
}

impl RelationType {
    /// The displayed name of each relation.
    pub open spec fn name_text(self) -> Seq<char> {
        match self {
            RelationType::Adaptation => "Adaptation"@,
            RelationType::Prequel => "Prequel"@,
            RelationType::Sequel => "Sequel"@,
            RelationType::Parent => "Parent"@,
            RelationType::SideStory => "Side Story"@,
            RelationType::Character => "Character"@,
            RelationType::Summary => "Summary"@,
            RelationType::Alternative => "Alternative"@,
            RelationType::SpinOff => "Spin Off"@,
            RelationType::Other => "Other"@,
            RelationType::Source => "Source"@,
            RelationType::Compilation => "Compilation"@,
            RelationType::Contains => "Contains"@,
        }
    }

    /// The relation that an upper-case key stands for; `Other` where the
    /// key is none of the table's.
    pub open spec fn of_key(key: Seq<char>) -> RelationType {
        if key == "ADAPTATION"@ {
            RelationType::Adaptation
        } else if key == "PREQUEL"@ {
            RelationType::Prequel
        } else if key == "SEQUEL"@ {
            RelationType::Sequel
        } else if key == "PARENT"@ {
            RelationType::Parent
        } else if key == "SIDE_STORY"@ {
            RelationType::SideStory
        } else if key == "CHARACTER"@ {
            RelationType::Character
        } else if key == "SUMMARY"@ {
            RelationType::Summary
        } else if key == "ALTERNATIVE"@ {
            RelationType::Alternative
        } else if key == "SPIN_OFF"@ {
            RelationType::SpinOff
        } else if key == "OTHER"@ {
            RelationType::Other
        } else if key == "SOURCE"@ {
            RelationType::Source
        } else if key == "COMPILATION"@ {
            RelationType::Compilation
        } else if key == "CONTAINS"@ {
            RelationType::Contains
        } else {
            RelationType::Other
        }
    }

    /// The relation that a text names: the text is trimmed and put in upper
    /// case, and the result looked up.
    pub open spec fn parse(text: Seq<char>) -> RelationType {
        RelationType::of_key(folded(text))
    }

    /// The displayed name of the relation.
    pub fn name(&self) -> (r: &'static str)
        ensures
            r@ == self.name_text(),
    {
        match self {
            RelationType::Adaptation => "Adaptation",
            RelationType::Prequel => "Prequel",
            RelationType::Sequel => "Sequel",
            RelationType::Parent => "Parent",
            RelationType::SideStory => "Side Story",
            RelationType::Character => "Character",
            RelationType::Summary => "Summary",
            RelationType::Alternative => "Alternative",
            RelationType::SpinOff => "Spin Off",
            RelationType::Other => "Other",
            RelationType::Source => "Source",
            RelationType::Compilation => "Compilation",
            RelationType::Contains => "Contains",
        }
    }

    /// The displayed name of the relation as an owned string.
    pub fn to_string(&self) -> (r: String)
        ensures
            r@ == self.name_text(),
    {
        self.name().to_owned()
    }

    /// The relation that an upper-case key stands for.
    pub fn from_key(key: &str) -> (r: RelationType)
        ensures
            r == RelationType::of_key(key@),
    {
        if same_text(key, "ADAPTATION") {
            RelationType::Adaptation
        } else if same_text(key, "PREQUEL") {
            RelationType::Prequel
        } else if same_text(key, "SEQUEL") {
            RelationType::Sequel
        } else if same_text(key, "PARENT") {
            RelationType::Parent
        } else if same_text(key, "SIDE_STORY") {
            RelationType::SideStory
        } else if same_text(key, "CHARACTER") {
            RelationType::Character
        } else if same_text(key, "SUMMARY") {
            RelationType::Summary
        } else if same_text(key, "ALTERNATIVE") {
            RelationType::Alternative
        } else if same_text(key, "SPIN_OFF") {
            RelationType::SpinOff
        } else if same_text(key, "OTHER") {
            RelationType::Other
        } else if same_text(key, "SOURCE") {
            RelationType::Source
        } else if same_text(key, "COMPILATION") {
            RelationType::Compilation
        } else if same_text(key, "CONTAINS") {
            RelationType::Contains
        } else {
            RelationType::Other
        }
    }

    /// The relation that a member names, where there is one and it is a string.
    pub open spec fn held(m: Option<Json>) -> Option<RelationType> {
        match text_in(m) {
            Some(t) => Some(RelationType::parse(t)),
            None => None,
        }
    }

    /// Reads the relation that the member of `v` under `key` names, where it is
    /// present.
    pub(crate) fn field(v: &Value, key: &str) -> (r: Result<Option<RelationType>, DecodeError>)
        ensures
            match r {
                Ok(e) => fits_text(member(tree(*v), key@)) && e == RelationType::held(
                    member(tree(*v), key@),
                ),
                Err(e) => e == DecodeError::WrongShape && !fits_text(member(tree(*v), key@)),
            },
    {
        match text_field(v, key)? {
            Some(s) => Ok(Some(RelationType::from(s.as_str()))),
            None => Ok(None),
        }
    }
}

impl Default for RelationType {
    fn default() -> (r: RelationType)
        ensures
            r == RelationType::Other,
    {
        RelationType::Other
    }
}

impl From<&str> for RelationType {
    /// The relation that `value` names, whatever its case and the white space
    /// around it; `Other` where it names none.
    fn from(value: &str) -> (r: RelationType)
        ensures
            r == RelationType::parse(value@),
    {
        let key = fold(value);
        RelationType::from_key(key.as_str())
    }
}

impl vstd::std_specs::convert::FromSpecImpl<&str> for RelationType {
    open spec fn obeys_from_spec() -> bool {
        true
    }

    open spec fn from_spec(v: &str) -> RelationType {
        RelationType::parse(v@)
    }
}

impl From<String> for RelationType {
    /// The relation that `value` names, whatever its case and the white space
    /// around it; `Other` where it names none.
    fn from(value: String) -> (r: RelationType)
        ensures
            r == RelationType::parse(value@),
    {
        let key = fold(value.as_str());
        RelationType::from_key(key.as_str())
    }
}

impl vstd::std_specs::convert::FromSpecImpl<String> for RelationType {
    open spec fn obeys_from_spec() -> bool {
        true
    }

    open spec fn from_spec(v: String) -> RelationType {
        RelationType::parse(v@)
    }
}

} // verus!

//! The objects of the OpenAI responses API.
//!
//! A type that holds strings and no collections takes the type of its strings as a parameter, so
//! that the same shape over `Seq<char>` is its view.

use crate::json;
use crate::json::{
    array_value, bool_value, new_members, null_value, object_value, put, put_text, text_value,
};
use crate::text;
use crate::text::same_text;
use vstd::prelude::*;

verus! {

// ---------------------------------------------------------------------------------------------
// Tools

/// Whether the model may, has to, or must not call a tool.
#[derive(Debug, Clone, Copy, PartialEq, Eq, Structural)]
pub enum ToolChoice {
    Auto,
    Required,
    Forbidden,
}

impl ToolChoice {
    /// The name that the API gives the choice.
    pub open spec fn spec_name(self) -> Seq<char> {
        match self {
            ToolChoice::Auto => "auto"@,
            ToolChoice::Required => "required"@,
            ToolChoice::Forbidden => "none"@,
        }
    }

    /// The name that the API gives the choice.
    pub fn name(self) -> (r: &'static str)
        ensures
            r@ == self.spec_name(),
    {
        match self {
            ToolChoice::Auto => "auto",
            ToolChoice::Required => "required",
            ToolChoice::Forbidden => "none",
        }
    }
}

/// One parameter of a tool: its type, what it is for, and the values it may take where they are
/// listed.
#[derive(Debug)]
pub struct ToolFunctionParameterProperty {
    pub kind: String,
    pub description: Option<String>,
    pub enum_values: Option<Vec<String>>,
}

/// The view of a [`ToolFunctionParameterProperty`].
#[verifier::ext_equal]
pub struct PropertyView {
    pub kind: Seq<char>,
    pub description: Option<Seq<char>>,
    pub enum_values: Option<Seq<Seq<char>>>,
}

/// The texts of an optional list of strings.
pub open spec fn list_view(list: Option<Vec<String>>) -> Option<Seq<Seq<char>>> {
    match list {
        Some(strings) => Some(text::texts(strings@)),
        None => None,
    }
}

impl View for ToolFunctionParameterProperty {
    type V = PropertyView;

    open spec fn view(&self) -> PropertyView {
        PropertyView {
            kind: self.kind@,
            description: text::text_view(self.description),
            enum_values: list_view(self.enum_values),
        }
    }
}

pub(crate) fn copy_option(value: &Option<String>) -> (r: Option<String>)
    ensures
        r == *value,
{
    match value {
        Some(s) => Some(s.clone()),
        None => None,
    }
}

pub(crate) fn copy_strings(list: &Vec<String>) -> (r: Vec<String>)
    ensures
        r@ == list@,
{
    let mut out: Vec<String> = Vec::new();
    let mut i: usize = 0;
    while i < list.len()
        invariant
            i <= list@.len(),
            out@ == list@.take(i as int),
        decreases list@.len() - i,
    {
        out.push(list[i].clone());
        i += 1;
    }
    proof {
        assert(list@.take(i as int) =~= list@);
    }
    out
}

fn copy_list(list: &Option<Vec<String>>) -> (r: Option<Vec<String>>)
    ensures
        list_view(r) == list_view(*list),
{
    match list {
        Some(strings) => Some(copy_strings(strings)),
        None => None,
    }
}

impl Clone for ToolFunctionParameterProperty {
    fn clone(&self) -> (r: Self)
        ensures
            r@ == self@,
    {
        ToolFunctionParameterProperty {
            kind: self.kind.clone(),
            description: copy_option(&self.description),
            enum_values: copy_list(&self.enum_values),
        }
    }
}

/// Builds a [`ToolFunctionParameterProperty`].
#[derive(Debug)]
pub struct ToolFunctionParameterPropertyBuilder {
    kind: String,
    description: Option<String>,
    enum_values: Option<Vec<String>>,
}

impl View for ToolFunctionParameterPropertyBuilder {
    type V = PropertyView;

    closed spec fn view(&self) -> PropertyView {
        PropertyView {
            kind: self.kind@,
            description: text::text_view(self.description),
            enum_values: list_view(self.enum_values),
        }
    }
}

/// A parameter of a type, with nothing more said of it.
pub open spec fn bare_property(kind: Seq<char>) -> PropertyView {
    PropertyView { kind, description: None, enum_values: None }
}

/// The texts of a slice of string slices.
pub open spec fn slice_texts(values: Seq<&str>) -> Seq<Seq<char>> {
    values.map_values(|s: &str| s@)
}

impl ToolFunctionParameterPropertyBuilder {
    fn new(kind: &str) -> (r: Self)
        ensures
            r@ == bare_property(kind@),
    {
        ToolFunctionParameterPropertyBuilder {
            kind: kind.to_owned(),
            description: None,
            enum_values: None,
        }
    }

    /// A parameter that is a string.
    #[must_use]
    pub fn new_string() -> (r: Self)
        ensures
            r@ == bare_property("string"@),
    {
        Self::new("string")
    }

    /// A parameter that is a truth value.
    #[must_use]
    pub fn new_boolean() -> (r: Self)
        ensures
            r@ == bare_property("boolean"@),
    {
        Self::new("boolean")
    }

    /// A parameter that is an integer.
    #[must_use]
    pub fn integer() -> (r: Self)
        ensures
            r@ == bare_property("integer"@),
    {
        Self::new("integer")
    }

    /// Lists the values that the parameter may take.
    #[must_use]
    pub fn enum_string(self, values: &[&str]) -> (r: Self)
        ensures
            r@ == (PropertyView { enum_values: Some(slice_texts(values@)), ..self@ }),
    {
        let mut list: Vec<String> = Vec::new();
        let mut i: usize = 0;
        while i < values.len()
            invariant
                i <= values@.len(),
                text::texts(list@) == slice_texts(values@).take(i as int),
            decreases values@.len() - i,
        {
            let ghost before = text::texts(list@);
            list.push(values[i].to_owned());
            proof {
                assert(text::texts(list@) =~= before.push(values@[i as int]@));
                assert(slice_texts(values@).take(i + 1) =~= before.push(values@[i as int]@));
            }
            i += 1;
        }
        proof {
            assert(slice_texts(values@).take(i as int) =~= slice_texts(values@));
        }
        ToolFunctionParameterPropertyBuilder {
            kind: self.kind,
            description: self.description,
            enum_values: Some(list),
        }
    }

    /// Says what the parameter is for.
    #[must_use]
    pub fn description(self, description: &str) -> (r: Self)
        ensures
            r@ == (PropertyView { description: Some(description@), ..self@ }),
    {
        ToolFunctionParameterPropertyBuilder {
            kind: self.kind,
            description: Some(description.to_owned()),
            enum_values: self.enum_values,
        }
    }

    /// The parameter as it was described.
    #[must_use]
    pub fn build(self) -> (r: ToolFunctionParameterProperty)
        ensures
            r@ == self@,
    {
        ToolFunctionParameterProperty {
            kind: self.kind,
            description: self.description,
            enum_values: self.enum_values,
        }
    }
}

/// The parameters of a tool by name. No name occurs twice.
#[derive(Debug)]
pub struct ToolProperties {
    entries: Vec<(String, ToolFunctionParameterProperty)>,
}

/// One named parameter.
pub type PropertyEntry = (Seq<char>, PropertyView);

/// The position of a name in a list of named parameters, or the list's length.
pub open spec fn name_position(entries: Seq<PropertyEntry>, name: Seq<char>) -> int
    decreases entries.len(),
{
    if entries.len() == 0 || entries[0].0 == name {
        0
    } else {
        1 + name_position(entries.drop_first(), name)
    }
}

/// The list with a parameter put in: in place of the one of that name, else at the end.
pub open spec fn with_property(entries: Seq<PropertyEntry>, entry: PropertyEntry) -> Seq<
    PropertyEntry,
> {
    let i = name_position(entries, entry.0);
    if i < entries.len() {
        entries.update(i, entry)
    } else {
        entries.push(entry)
    }
}

/// The names of a list of named parameters.
pub open spec fn names(entries: Seq<PropertyEntry>) -> Seq<Seq<char>> {
    entries.map_values(|e: PropertyEntry| e.0)
}

proof fn lemma_name_position(entries: Seq<PropertyEntry>, name: Seq<char>)
    ensures
        0 <= name_position(entries, name) <= entries.len(),
        name_position(entries, name) < entries.len() ==> entries[name_position(entries, name)].0
            == name,
        forall|j: int| 0 <= j < name_position(entries, name) ==> (#[trigger] entries[j]).0 != name,
    decreases entries.len(),
{
    if entries.len() > 0 && entries[0].0 != name {
        lemma_name_position(entries.drop_first(), name);
        let k = name_position(entries.drop_first(), name);
        assert forall|j: int| 0 <= j < k + 1 implies (#[trigger] entries[j]).0 != name by {
            if j > 0 {
                assert(entries.drop_first()[j - 1] == entries[j]);
            }
        }
    }
}

impl View for ToolProperties {
    type V = Seq<PropertyEntry>;

    closed spec fn view(&self) -> Seq<PropertyEntry> {
        self.entries@.map_values(|e: (String, ToolFunctionParameterProperty)| (e.0@, e.1@))
    }
}

impl ToolProperties {
    #[verifier::type_invariant]
    spec fn names_are_distinct(self) -> bool {
        forall|i: int, j: int|
            0 <= i < j < self.entries@.len() ==> (#[trigger] self.entries@[i]).0@ != (
            #[trigger] self.entries@[j]).0@
    }

    /// No parameters.
    pub fn new() -> (r: Self)
        ensures
            r@ == Seq::<PropertyEntry>::empty(),
    {
        let r = ToolProperties { entries: Vec::new() };
        proof {
            assert(r@ =~= Seq::<PropertyEntry>::empty());
        }
        r
    }

    /// Puts a parameter in, in place of one of the same name.
    pub fn insert(self, name: &str, property: ToolFunctionParameterProperty) -> (r: Self)
        ensures
            r@ == with_property(self@, (name@, property@)),
    {
        proof {
            use_type_invariant(&self);
            lemma_name_position(self@, name@);
        }
        let ghost before = self@;
        let ghost old_entries = self.entries@;
        let mut entries = self.entries;
        let mut i: usize = 0;
        while i < entries.len() && !same_text(entries[i].0.as_str(), name)
            invariant
                i <= entries@.len(),
                entries@ == old_entries,
                before == old_entries.map_values(
                    |e: (String, ToolFunctionParameterProperty)| (e.0@, e.1@),
                ),
                forall|j: int| 0 <= j < i ==> (#[trigger] old_entries[j]).0@ != name@,
            decreases entries@.len() - i,
        {
            i += 1;
        }
        let entry = (name.to_owned(), property);
        proof {
            let k = name_position(before, name@);
            if k < before.len() {
                assert(before[k].0 == old_entries[k].0@);
            }
            if i < old_entries.len() {
                assert(before[i as int].0 == name@);
                assert(k == i);
            } else if k < before.len() {
                assert(false);
            }
        }
        if i < entries.len() {
            entries.set(i, entry);
        } else {
            entries.push(entry);
        }
        let r = ToolProperties { entries };
        proof {
            assert(r@ =~= with_property(before, (name@, property@)));
        }
        r
    }

    /// The names of the parameters, in the order in which they were put in; each is there once.
    pub fn keys(&self) -> (r: Vec<String>)
        ensures
            text::texts(r@) == names(self@),
            names(self@).no_duplicates(),
    {
        proof {
            use_type_invariant(self);
            assert forall|i: int, j: int|
                0 <= i < names(self@).len() && 0 <= j < names(self@).len() && i
                    != j implies names(self@)[i] != names(self@)[j] by {
                assert(names(self@)[i] == self.entries@[i].0@);
                assert(names(self@)[j] == self.entries@[j].0@);
                if i < j {
                    assert(self.entries@[i].0@ != self.entries@[j].0@);
                } else {
                    assert(self.entries@[j].0@ != self.entries@[i].0@);
                }
            }
        }
        let mut out: Vec<String> = Vec::new();
        let mut i: usize = 0;
        while i < self.entries.len()
            invariant
                i <= self.entries@.len(),
                text::texts(out@) == names(self@).take(i as int),
            decreases self.entries@.len() - i,
        {
            let ghost before = text::texts(out@);
            out.push(self.entries[i].0.clone());
            proof {
                assert(text::texts(out@) =~= before.push(self.entries@[i as int].0@));
                assert(names(self@).take(i + 1) =~= before.push(self.entries@[i as int].0@));
            }
            i += 1;
        }
        proof {
            assert(names(self@).take(i as int) =~= names(self@));
        }
        out
    }

    /// How many parameters there are.
    pub fn len(&self) -> (r: usize)
        ensures
            r == self@.len(),
    {
        self.entries.len()
    }

    /// The parameter of a name.
    pub fn get(&self, name: &str) -> (r: Option<&ToolFunctionParameterProperty>)
        ensures
            match r {
                Some(property) => self@.contains((name@, property@)),
                None => !names(self@).contains(name@),
            },
    {
        let mut i: usize = 0;
        while i < self.entries.len()
            invariant
                i <= self.entries@.len(),
                forall|j: int| 0 <= j < i ==> (#[trigger] self.entries@[j]).0@ != name@,
            decreases self.entries@.len() - i,
        {
            if same_text(self.entries[i].0.as_str(), name) {
                proof {
                    assert(self@[i as int] == (name@, self.entries@[i as int].1@));
                }
                return Some(&self.entries[i].1);
            }
            i += 1;
        }
        proof {
            if names(self@).contains(name@) {
                let k = choose|k: int| 0 <= k < names(self@).len() && names(self@)[k] == name@;
                assert(self.entries@[k].0@ == name@);
            }
        }
        None
    }

    fn to_json(&self) -> (r: serde_json::Value)
        ensures
            json::json_of(r) == json::Json::Object(properties_members(self@)),
    {
        let mut members = new_members();
        let mut i: usize = 0;
        while i < self.entries.len()
            invariant
                i <= self.entries@.len(),
                json::members_of(members) == properties_members(self@.take(i as int)),
            decreases self.entries@.len() - i,
        {
            proof {
                assert(self@.take(i + 1).drop_last() =~= self@.take(i as int));
                assert(self@.take(i + 1).last() == (
                    self.entries@[i as int].0@,
                    self.entries@[i as int].1@,
                ));
            }
            let value = self.entries[i].1.to_json();
            put(&mut members, self.entries[i].0.as_str(), value);
            i += 1;
        }
        proof {
            assert(self@.take(i as int) =~= self@);
        }
        object_value(members)
    }
}

impl Clone for ToolProperties {
    fn clone(&self) -> (r: Self)
        ensures
            r@ == self@,
    {
        proof {
            use_type_invariant(self);
        }
        let mut entries: Vec<(String, ToolFunctionParameterProperty)> = Vec::new();
        let mut i: usize = 0;
        while i < self.entries.len()
            invariant
                i <= self.entries@.len(),
                entries@.len() == i,
                forall|j: int|
                    0 <= j < i ==> (#[trigger] entries@[j]).0@ == self.entries@[j].0@
                        && entries@[j].1@ == self.entries@[j].1@,
            decreases self.entries@.len() - i,
        {
            entries.push((self.entries[i].0.clone(), self.entries[i].1.clone()));
            i += 1;
        }
        let r = ToolProperties { entries };
        proof {
            assert(r@ =~= self@);
        }
        r
    }
}

/// The parameters of a tool as a JSON schema.
#[derive(Debug)]
pub struct ToolFunctionParameters {
    pub kind: String,
    pub properties: ToolProperties,
    pub required: Option<Vec<String>>,
    pub additional_properties: bool,
}

/// The view of [`ToolFunctionParameters`].
#[verifier::ext_equal]
pub struct ParametersView {
    pub kind: Seq<char>,
    pub properties: Seq<PropertyEntry>,
    pub required: Option<Seq<Seq<char>>>,
    pub additional_properties: bool,
}

impl View for ToolFunctionParameters {
    type V = ParametersView;

    open spec fn view(&self) -> ParametersView {
        ParametersView {
            kind: self.kind@,
            properties: self.properties@,
            required: list_view(self.required),
            additional_properties: self.additional_properties,
        }
    }
}

impl Clone for ToolFunctionParameters {
    fn clone(&self) -> (r: Self)
        ensures
            r@ == self@,
    {
        ToolFunctionParameters {
            kind: self.kind.clone(),
            properties: self.properties.clone(),
            required: copy_list(&self.required),
            additional_properties: self.additional_properties,
        }
    }
}

/// A tool that the model may call.
#[derive(Debug)]
pub struct ToolDefinition {
    pub kind: String,
    pub name: String,
    pub description: Option<String>,
    pub parameters: Option<ToolFunctionParameters>,
    pub strict: Option<bool>,
}

/// The view of a [`ToolDefinition`].
#[verifier::ext_equal]
pub struct ToolView {
    pub kind: Seq<char>,
    pub name: Seq<char>,
    pub description: Option<Seq<char>>,
    pub parameters: Option<ParametersView>,
    pub strict: Option<bool>,
}

impl View for ToolDefinition {
    type V = ToolView;

    open spec fn view(&self) -> ToolView {
        ToolView {
            kind: self.kind@,
            name: self.name@,
            description: text::text_view(self.description),
            parameters: match self.parameters {
                Some(p) => Some(p@),
                None => None,
            },
            strict: self.strict,
        }
    }
}

impl Clone for ToolDefinition {
    fn clone(&self) -> (r: Self)
        ensures
            r@ == self@,
    {
        ToolDefinition {
            kind: self.kind.clone(),
            name: self.name.clone(),
            description: copy_option(&self.description),
            parameters: match &self.parameters {
                Some(p) => Some(p.clone()),
                None => None,
            },
            strict: self.strict,
        }
    }
}

/// The parameters of a strict tool: every parameter is required and no other is allowed.
pub open spec fn strict_parameters(given: Option<ParametersView>) -> ParametersView {
    let base = match given {
        Some(p) => p,
        None => ParametersView {
            kind: "object"@,
            properties: seq![],
            required: Some(seq![]),
            additional_properties: false,
        },
    };
    ParametersView {
        required: Some(names(base.properties)),
        additional_properties: false,
        ..base
    }
}

/// A strict function tool.
pub open spec fn strict_tool(
    name: Seq<char>,
    description: Option<Seq<char>>,
    given: Option<ParametersView>,
) -> ToolView {
    ToolView {
        kind: "function"@,
        name,
        description,
        parameters: Some(strict_parameters(given)),
        strict: Some(true),
    }
}

impl ToolDefinition {
    /// A function tool in strict mode, which requires every parameter and allows no others.
    #[must_use]
    pub fn new(
        name: String,
        description: Option<String>,
        parameters: Option<ToolFunctionParameters>,
    ) -> (r: Self)
        ensures
            r@ == strict_tool(
                name@,
                text::text_view(description),
                match parameters {
                    Some(p) => Some(p@),
                    None => None,
                },
            ),
    {
        let (kind, properties) = match parameters {
            Some(p) => (p.kind, p.properties),
            None => ("object".to_owned(), ToolProperties::new()),
        };
        let required = properties.keys();
        let updated = ToolFunctionParameters {
            kind,
            properties,
            required: Some(required),
            additional_properties: false,
        };
        ToolDefinition {
            kind: "function".to_owned(),
            name,
            description,
            parameters: Some(updated),
            strict: Some(true),
        }
    }
}

/// The built-in web search tool.
#[derive(Debug)]
pub struct WebSearchToolConfig {
    pub kind: String,
}

impl WebSearchToolConfig {
    /// The web search tool.
    pub fn new() -> (r: Self)
        ensures
            r.kind@ == "web_search_preview"@,
    {
        WebSearchToolConfig { kind: "web_search_preview".to_owned() }
    }
}

impl Default for WebSearchToolConfig {
    fn default() -> (r: Self)
        ensures
            r.kind@ == "web_search_preview"@,
    {
        Self::new()
    }
}

impl Clone for WebSearchToolConfig {
    fn clone(&self) -> (r: Self)
        ensures
            r == *self,
    {
        WebSearchToolConfig { kind: self.kind.clone() }
    }
}

/// A tool as the API takes it.
#[derive(Debug)]
pub enum ApiToolType {
    Function(ToolDefinition),
    WebSearch(WebSearchToolConfig),
}

/// The view of an [`ApiToolType`].
pub enum ApiToolView {
    Function(ToolView),
    WebSearch(Seq<char>),
}

impl View for ApiToolType {
    type V = ApiToolView;

    open spec fn view(&self) -> ApiToolView {
        match self {
            ApiToolType::Function(f) => ApiToolView::Function(f@),
            ApiToolType::WebSearch(w) => ApiToolView::WebSearch(w.kind@),
        }
    }
}

impl Clone for ApiToolType {
    fn clone(&self) -> (r: Self)
        ensures
            r@ == self@,
    {
        match self {
            ApiToolType::Function(f) => ApiToolType::Function(f.clone()),
            ApiToolType::WebSearch(w) => ApiToolType::WebSearch(w.clone()),
        }
    }
}

/// The views of a list of tools.
pub open spec fn tool_views(tools: Seq<ApiToolType>) -> Seq<ApiToolView> {
    tools.map_values(|t: ApiToolType| t@)
}

// ---------------------------------------------------------------------------------------------
// Tools as JSON

/// A text, or null.
pub open spec fn text_or_null(value: Option<Seq<char>>) -> json::Json {
    match value {
        Some(s) => json::Json::Text(s),
        None => json::Json::Null,
    }
}

/// A list of texts.
pub open spec fn text_array(list: Seq<Seq<char>>) -> json::Json {
    json::Json::Array(list.map_values(|s: Seq<char>| json::Json::Text(s)))
}

/// How a parameter is written: the list of values only where there is one.
pub open spec fn property_json(property: PropertyView) -> json::Json {
    let base = json::no_members().insert("type"@, json::Json::Text(property.kind)).insert(
        "description"@,
        text_or_null(property.description),
    );
    json::Json::Object(
        match property.enum_values {
            Some(values) => base.insert("enum"@, text_array(values)),
            None => base,
        },
    )
}

/// The members that write a list of named parameters.
pub open spec fn properties_members(entries: Seq<PropertyEntry>) -> Map<Seq<char>, json::Json>
    decreases entries.len(),
{
    if entries.len() == 0 {
        json::no_members()
    } else {
        properties_members(entries.drop_last()).insert(
            entries.last().0,
            property_json(entries.last().1),
        )
    }
}

/// How the parameters of a tool are written.
pub open spec fn parameters_json(parameters: ParametersView) -> json::Json {
    json::Json::Object(
        json::no_members().insert("type"@, json::Json::Text(parameters.kind)).insert(
            "properties"@,
            json::Json::Object(properties_members(parameters.properties)),
        ).insert(
            "required"@,
            match parameters.required {
                Some(list) => text_array(list),
                None => json::Json::Null,
            },
        ).insert(
            "additionalProperties"@,
            json::Json::Bool(parameters.additional_properties),
        ),
    )
}

/// How a tool is written.
pub open spec fn tool_json(tool: ApiToolView) -> json::Json {
    match tool {
        ApiToolView::Function(f) => json::Json::Object(
            json::no_members().insert("type"@, json::Json::Text(f.kind)).insert(
                "name"@,
                json::Json::Text(f.name),
            ).insert("description"@, text_or_null(f.description)).insert(
                "parameters"@,
                match f.parameters {
                    Some(p) => parameters_json(p),
                    None => json::Json::Null,
                },
            ).insert(
                "strict"@,
                match f.strict {
                    Some(flag) => json::Json::Bool(flag),
                    None => json::Json::Null,
                },
            ),
        ),
        ApiToolView::WebSearch(kind) => json::Json::Object(
            json::no_members().insert("type"@, json::Json::Text(kind)),
        ),
    }
}

fn optional_text_value(value: &Option<String>) -> (r: serde_json::Value)
    ensures
        json::json_of(r) == text_or_null(text::text_view(*value)),
{
    match value {
        Some(s) => text_value(s.as_str()),
        None => null_value(),
    }
}

pub(crate) fn text_array_value(list: &Vec<String>) -> (r: serde_json::Value)
    ensures
        json::json_of(r) == text_array(text::texts(list@)),
{
    let mut values: Vec<serde_json::Value> = Vec::new();
    let mut i: usize = 0;
    while i < list.len()
        invariant
            i <= list@.len(),
            values@.len() == i,
            forall|j: int|
                0 <= j < i ==> json::json_of(#[trigger] values@[j]) == json::Json::Text(list@[j]@),
        decreases list@.len() - i,
    {
        values.push(text_value(list[i].as_str()));
        i += 1;
    }
    proof {
        assert(json::jsons(values@) =~= text::texts(list@).map_values(
            |s: Seq<char>| json::Json::Text(s),
        ));
    }
    array_value(values)
}

impl ToolFunctionParameterProperty {
    fn to_json(&self) -> (r: serde_json::Value)
        ensures
            json::json_of(r) == property_json(self@),
    {
        let mut members = new_members();
        put_text(&mut members, "type", self.kind.as_str());
        put(&mut members, "description", optional_text_value(&self.description));
        if let Some(values) = &self.enum_values {
            put(&mut members, "enum", text_array_value(values));
        }
        object_value(members)
    }
}

impl ToolFunctionParameters {
    fn to_json(&self) -> (r: serde_json::Value)
        ensures
            json::json_of(r) == parameters_json(self@),
    {
        let mut members = new_members();
        put_text(&mut members, "type", self.kind.as_str());
        put(&mut members, "properties", self.properties.to_json());
        let required = match &self.required {
            Some(list) => text_array_value(list),
            None => null_value(),
        };
        put(&mut members, "required", required);
        put(&mut members, "additionalProperties", bool_value(self.additional_properties));
        object_value(members)
    }
}

impl ApiToolType {
    /// The tool as the API takes it.
    pub fn to_json(&self) -> (r: serde_json::Value)
        ensures
            json::json_of(r) == tool_json(self@),
    {
        let mut members = new_members();
        match self {
            ApiToolType::Function(f) => {
                put_text(&mut members, "type", f.kind.as_str());
                put_text(&mut members, "name", f.name.as_str());
                put(&mut members, "description", optional_text_value(&f.description));
                let parameters = match &f.parameters {
                    Some(p) => p.to_json(),
                    None => null_value(),
                };
                put(&mut members, "parameters", parameters);
                let strict = match f.strict {
                    Some(flag) => bool_value(flag),
                    None => null_value(),
                };
                put(&mut members, "strict", strict);
            },
            ApiToolType::WebSearch(w) => {
                put_text(&mut members, "type", w.kind.as_str());
            },
        }
        object_value(members)
    }
}

// ---------------------------------------------------------------------------------------------
// Input

/// One item of what is sent to the model.
#[derive(Debug)]
pub enum InputItem<S = String> {
    Text(S),
    Message(InputMessageObject<S>),
    FunctionCallOutput(FunctionCallOutputItem<S>),
    FunctionCallEcho(FunctionCallEchoItem<S>),
}

/// A message of one of the sides of a conversation.
#[derive(Debug)]
pub struct InputMessageObject<S = String> {
    pub role: S,
    pub content: S,
}

/// What a call of a tool gave.
#[derive(Debug)]
pub struct FunctionCallOutputItem<S = String> {
    pub kind: S,
    pub call_id: S,
    pub output: S,
}

/// A call of a tool, repeated.
#[derive(Debug)]
pub struct FunctionCallEchoItem<S = String> {
    pub kind: S,
    pub call_id: S,
    pub name: S,
    pub arguments: S,
}

/// What an item of input says.
pub type ItemView = InputItem<Seq<char>>;

impl View for InputItem {
    type V = ItemView;

    open spec fn view(&self) -> ItemView {
        match self {
            InputItem::Text(s) => InputItem::Text(s@),
            InputItem::Message(m) => InputItem::Message(
                InputMessageObject { role: m.role@, content: m.content@ },
            ),
            InputItem::FunctionCallOutput(o) => InputItem::FunctionCallOutput(
                FunctionCallOutputItem { kind: o.kind@, call_id: o.call_id@, output: o.output@ },
            ),
            InputItem::FunctionCallEcho(e) => InputItem::FunctionCallEcho(
                FunctionCallEchoItem {
                    kind: e.kind@,
                    call_id: e.call_id@,
                    name: e.name@,
                    arguments: e.arguments@,
                },
            ),
        }
    }
}

impl Clone for InputItem {
    fn clone(&self) -> (r: Self)
        ensures
            r == *self,
    {
        match self {
            InputItem::Text(s) => InputItem::Text(s.clone()),
            InputItem::Message(m) => InputItem::Message(
                InputMessageObject { role: m.role.clone(), content: m.content.clone() },
            ),
            InputItem::FunctionCallOutput(o) => InputItem::FunctionCallOutput(
                FunctionCallOutputItem {
                    kind: o.kind.clone(),
                    call_id: o.call_id.clone(),
                    output: o.output.clone(),
                },
            ),
            InputItem::FunctionCallEcho(e) => InputItem::FunctionCallEcho(
                FunctionCallEchoItem {
                    kind: e.kind.clone(),
                    call_id: e.call_id.clone(),
                    name: e.name.clone(),
                    arguments: e.arguments.clone(),
                },
            ),
        }
    }
}

/// What a list of items of input says.
pub open spec fn item_views(items: Seq<InputItem>) -> Seq<ItemView> {
    items.map_values(|item: InputItem| item@)
}

/// A message of a role.
pub open spec fn message_item(role: Seq<char>, content: Seq<char>) -> ItemView {
    InputItem::Message(InputMessageObject { role, content })
}

/// What a call of a tool gave.
pub open spec fn call_output_item(call_id: Seq<char>, output: Seq<char>) -> ItemView {
    InputItem::FunctionCallOutput(
        FunctionCallOutputItem { kind: "function_call_output"@, call_id, output },
    )
}

/// A message of a role.
pub fn input_message(role: &str, content: &str) -> (r: InputItem)
    ensures
        r@ == message_item(role@, content@),
{
    InputItem::Message(InputMessageObject { role: role.to_owned(), content: content.to_owned() })
}

/// What a call of a tool gave.
pub fn input_call_output(call_id: &str, output: &str) -> (r: InputItem)
    ensures
        r@ == call_output_item(call_id@, output@),
{
    InputItem::FunctionCallOutput(
        FunctionCallOutputItem {
            kind: "function_call_output".to_owned(),
            call_id: call_id.to_owned(),
            output: output.to_owned(),
        },
    )
}

/// Copies a list of items of input.
pub fn copy_items(items: &Vec<InputItem>) -> (r: Vec<InputItem>)
    ensures
        r@ == items@,
{
    let mut out: Vec<InputItem> = Vec::new();
    let mut i: usize = 0;
    while i < items.len()
        invariant
            i <= items@.len(),
            out@ == items@.take(i as int),
        decreases items@.len() - i,
    {
        out.push(items[i].clone());
        i += 1;
    }
    proof {
        assert(items@.take(i as int) =~= items@);
    }
    out
}

/// Copies a list of tools.
pub fn copy_tools(tools: &Vec<ApiToolType>) -> (r: Vec<ApiToolType>)
    ensures
        tool_views(r@) == tool_views(tools@),
{
    let mut out: Vec<ApiToolType> = Vec::new();
    let mut i: usize = 0;
    while i < tools.len()
        invariant
            i <= tools@.len(),
            out@.len() == i,
            forall|j: int| 0 <= j < i ==> (#[trigger] out@[j])@ == tools@[j]@,
        decreases tools@.len() - i,
    {
        out.push(tools[i].clone());
        i += 1;
    }
    proof {
        assert(tool_views(out@) =~= tool_views(tools@));
    }
    out
}

/// How an item of input is written.
pub open spec fn item_json(item: ItemView) -> json::Json {
    match item {
        InputItem::Text(s) => json::Json::Text(s),
        InputItem::Message(m) => json::Json::Object(
            json::no_members().insert("role"@, json::Json::Text(m.role)).insert(
                "content"@,
                json::Json::Text(m.content),
            ),
        ),
        InputItem::FunctionCallOutput(o) => json::Json::Object(
            json::no_members().insert("type"@, json::Json::Text(o.kind)).insert(
                "call_id"@,
                json::Json::Text(o.call_id),
            ).insert("output"@, json::Json::Text(o.output)),
        ),
        InputItem::FunctionCallEcho(e) => json::Json::Object(
            json::no_members().insert("type"@, json::Json::Text(e.kind)).insert(
                "call_id"@,
                json::Json::Text(e.call_id),
            ).insert("name"@, json::Json::Text(e.name)).insert(
                "arguments"@,
                json::Json::Text(e.arguments),
            ),
        ),
    }
}

impl InputItem {
    /// The item as the API takes it.
    pub fn to_json(&self) -> (r: serde_json::Value)
        ensures
            json::json_of(r) == item_json(self@),
    {
        let mut members = new_members();
        match self {
            InputItem::Text(s) => {
                return text_value(s.as_str());
            },
            InputItem::Message(m) => {
                put_text(&mut members, "role", m.role.as_str());
                put_text(&mut members, "content", m.content.as_str());
            },
            InputItem::FunctionCallOutput(o) => {
                put_text(&mut members, "type", o.kind.as_str());
                put_text(&mut members, "call_id", o.call_id.as_str());
                put_text(&mut members, "output", o.output.as_str());
            },
            InputItem::FunctionCallEcho(e) => {
                put_text(&mut members, "type", e.kind.as_str());
                put_text(&mut members, "call_id", e.call_id.as_str());
                put_text(&mut members, "name", e.name.as_str());
                put_text(&mut members, "arguments", e.arguments.as_str());
            },
        }
        object_value(members)
    }
}

// ---------------------------------------------------------------------------------------------
// Output

/// A piece of text in the output.
#[derive(Debug)]
pub struct OutputTextContent {
    pub kind: String,
    pub text: String,
}

/// A call of a tool that the model asks for.
#[derive(Debug)]
pub struct OutputFunctionCall<S = String> {
    pub kind: S,
    pub id: S,
    pub call_id: S,
    pub name: S,
    pub arguments: S,
}

/// What a call of a tool says.
pub type CallView = OutputFunctionCall<Seq<char>>;

impl View for OutputFunctionCall {
    type V = CallView;

    open spec fn view(&self) -> CallView {
        OutputFunctionCall {
            kind: self.kind@,
            id: self.id@,
            call_id: self.call_id@,
            name: self.name@,
            arguments: self.arguments@,
        }
    }
}

impl Clone for OutputFunctionCall {
    fn clone(&self) -> (r: Self)
        ensures
            r == *self,
    {
        OutputFunctionCall {
            kind: self.kind.clone(),
            id: self.id.clone(),
            call_id: self.call_id.clone(),
            name: self.name.clone(),
            arguments: self.arguments.clone(),
        }
    }
}

/// The model's account of its reasoning.
#[derive(Debug)]
pub struct OutputReasoning {
    pub kind: String,
    pub id: String,
    pub summary: Vec<OutputTextContent>,
}

/// A web search that the model made.
#[derive(Debug)]
pub struct OutputWebSearchCall {
    pub kind: String,
    pub id: String,
    pub status: String,
}

/// One item of the output.
#[derive(Debug)]
pub enum OutputItem {
    Message(OutputMessage),
    FunctionCall(OutputFunctionCall),
    Reasoning(OutputReasoning),
    WebSearchCall(OutputWebSearchCall),
}

/// A message of the model.
#[derive(Debug)]
pub struct OutputMessage {
    pub id: String,
    pub kind: String,
    pub status: String,
    pub role: String,
    pub content: Vec<OutputTextContent>,
}

/// An answer of the API. What the bot does not look into is carried as the JSON it came as.
#[derive(Debug)]
pub struct OpenAiApiResponse {
    pub id: String,
    pub object: String,
    pub created_at: i64,
    pub model: String,
    pub status: String,
    pub output: Vec<OutputItem>,
    pub background: Option<bool>,
    pub error: Option<serde_json::Value>,
    pub incomplete_details: Option<serde_json::Value>,
    pub instructions: Option<String>,
    pub max_output_tokens: Option<i64>,
    pub parallel_tool_calls: Option<bool>,
    pub previous_response_id: Option<String>,
    pub reasoning: Option<serde_json::Value>,
    pub service_tier: Option<String>,
    pub store: Option<bool>,
    pub temperature: Option<serde_json::Value>,
    pub text: Option<serde_json::Value>,
    pub tool_choice: Option<serde_json::Value>,
    pub usage: Option<serde_json::Value>,
    pub user: Option<String>,
    pub metadata: Option<Vec<(String, String)>>,
}

/// The text of a message of the assistant: its first piece, where that is text.
pub open spec fn assistant_text(message: OutputMessage) -> Option<Seq<char>> {
    if message.role@ == "assistant"@ && message.content@.len() > 0 && message.content@[0].kind@
        == "output_text"@ {
        Some(message.content@[0].text@)
    } else {
        None
    }
}

impl OutputMessage {
    /// The text of the message, where it is one of the assistant that begins with text.
    pub fn assistant_text(&self) -> (r: Option<&String>)
        ensures
            match r {
                Some(s) => assistant_text(*self) == Some(s@),
                None => assistant_text(*self) is None,
            },
    {
        if same_text(self.role.as_str(), "assistant") && self.content.len() > 0 && same_text(
            self.content[0].kind.as_str(),
            "output_text",
        ) {
            Some(&self.content[0].text)
        } else {
            None
        }
    }
}

// ---------------------------------------------------------------------------------------------
// Laws

proof fn lemma_schema_names()
    ensures
        "type"@.len() == 4,
        "type"@[0] == 't',
        "name"@.len() == 4,
        "name"@[0] == 'n',
        "enum"@.len() == 4,
        "enum"@[0] == 'e',
        "role"@.len() == 4,
        "role"@[0] == 'r',
        "strict"@.len() == 6,
        "strict"@[0] == 's',
        "output"@.len() == 6,
        "output"@[0] == 'o',
        "content"@.len() == 7,
        "content"@[0] == 'c',
        "call_id"@.len() == 7,
        "call_id"@[1] == 'a',
        "required"@.len() == 8,
        "arguments"@.len() == 9,
        "parameters"@.len() == 10,
        "parameters"@[1] == 'a',
        "properties"@.len() == 10,
        "properties"@[1] == 'r',
        "description"@.len() == 11,
        "additionalProperties"@.len() == 20,
{
    reveal_strlit("type");
    reveal_strlit("name");
    reveal_strlit("enum");
    reveal_strlit("role");
    reveal_strlit("strict");
    reveal_strlit("output");
    reveal_strlit("content");
    reveal_strlit("call_id");
    reveal_strlit("required");
    reveal_strlit("arguments");
    reveal_strlit("parameters");
    reveal_strlit("properties");
    reveal_strlit("description");
    reveal_strlit("additionalProperties");
}

/// Each choice has the name that the API gives it.
pub proof fn law_choices_have_their_names()
    ensures
        ToolChoice::Auto.spec_name() == "auto"@,
        ToolChoice::Required.spec_name() == "required"@,
        ToolChoice::Forbidden.spec_name() == "none"@,
{
}

/// A parameter that is put in is there under its name, as it was given, and is the only one of that
/// name; the others stay as they are and where they are.
pub proof fn law_parameters_are_put_in(
    entries: Seq<PropertyEntry>,
    name: Seq<char>,
    property: PropertyView,
)
    requires
        names(entries).no_duplicates(),
    ensures
        ({
            let after = with_property(entries, (name, property));
            &&& after.contains((name, property))
            &&& names(after).no_duplicates()
            &&& names(entries).is_prefix_of(names(after))
            &&& after.len() == if names(entries).contains(name) {
                entries.len()
            } else {
                entries.len() + 1
            }
            &&& forall|i: int|
                0 <= i < entries.len() && (#[trigger] entries[i]).0 != name ==> after[i]
                    == entries[i]
        }),
{
    lemma_name_position(entries, name);
    let k = name_position(entries, name);
    let after = with_property(entries, (name, property));
    let all = names(entries);
    let list = names(after);
    assert(after[k] == (name, property));
    if k < entries.len() {
        assert(all[k] == name);
        assert(list =~= all);
    } else {
        assert(list =~= all.push(name));
        assert(!all.contains(name)) by {
            if all.contains(name) {
                let j = choose|j: int| 0 <= j < all.len() && all[j] == name;
                assert(entries[j].0 == name);
            }
        }
    }
    assert forall|i: int, j: int|
        0 <= i < list.len() && 0 <= j < list.len() && i != j implies list[i] != list[j] by {
        if k == entries.len() {
            if i == k {
                assert(all[j] == list[j]);
                assert(all.contains(all[j]));
            } else if j == k {
                assert(all[i] == list[i]);
                assert(all.contains(all[i]));
            } else {
                assert(all[i] != all[j]);
            }
        }
    }
    assert(all =~= list.take(all.len() as int));
}

/// Every parameter is written under its name, the last of a name counting, and no other member is.
pub proof fn law_parameters_are_written_by_name(entries: Seq<PropertyEntry>)
    ensures
        ({
            let members = properties_members(entries);
            &&& forall|name: Seq<char>| #[trigger]
                members.dom().contains(name) <==> names(entries).contains(name)
            &&& forall|i: int|
                0 <= i < entries.len() && (forall|j: int|
                    i < j < entries.len() ==> (#[trigger] entries[j]).0 != entries[i].0)
                    ==> members[(#[trigger] entries[i]).0] == property_json(entries[i].1)
        }),
    decreases entries.len(),
{
    if entries.len() > 0 {
        let before = entries.drop_last();
        law_parameters_are_written_by_name(before);
        let members = properties_members(entries);
        let last = entries.last();
        assert(names(entries) =~= names(before).push(last.0));
        assert forall|name: Seq<char>| #[trigger]
            members.dom().contains(name) <==> names(entries).contains(name) by {
            let list = names(entries);
            let some = names(before);
            if some.contains(name) {
                let k = choose|k: int| 0 <= k < some.len() && some[k] == name;
                assert(list[k] == name);
            }
            if name == last.0 {
                assert(list[list.len() - 1] == name);
            }
            if list.contains(name) && name != last.0 {
                let k = choose|k: int| 0 <= k < list.len() && list[k] == name;
                assert(some[k] == name);
            }
            if members.dom().contains(name) && name != last.0 {
                assert(properties_members(before).dom().contains(name));
            }
        }
        assert forall|i: int|
            0 <= i < entries.len() && (forall|j: int|
                i < j < entries.len() ==> (#[trigger] entries[j]).0
                    != entries[i].0) implies members[(#[trigger] entries[i]).0] == property_json(
            entries[i].1,
        ) by {
            if i < before.len() {
                assert(entries[entries.len() - 1].0 != entries[i].0);
                assert(before[i] == entries[i]);
                assert forall|j: int| i < j < before.len() implies (#[trigger] before[j]).0
                    != before[i].0 by {
                    assert(entries[j] == before[j]);
                }
            }
        }
    }
}

/// A parameter is written with its type and what it is for, and with the values it may take, all of
/// them and in order, just where they are listed.
pub proof fn law_parameters_are_written(property: PropertyView)
    ensures
        ({
            let written = property_json(property);
            &&& json::member(written, "type"@) == Some(json::Json::Text(property.kind))
            &&& json::member(written, "description"@) == Some(
                match property.description {
                    Some(s) => json::Json::Text(s),
                    None => json::Json::Null,
                },
            )
            &&& match property.enum_values {
                Some(values) => json::member(written, "enum"@) matches Some(
                    json::Json::Array(list),
                ) && list.len() == values.len() && forall|i: int|
                    0 <= i < values.len() ==> #[trigger] list[i] == json::Json::Text(values[i]),
                None => json::member(written, "enum"@) is None,
            }
        }),
{
    lemma_schema_names();
}

/// The schema of a tool's parameters says their type, what they are, which of them are required,
/// all of them and in order, and whether others are allowed.
pub proof fn law_schemas_are_written(parameters: ParametersView)
    ensures
        ({
            let written = parameters_json(parameters);
            &&& json::member(written, "type"@) == Some(json::Json::Text(parameters.kind))
            &&& json::member(written, "properties"@) == Some(
                json::Json::Object(properties_members(parameters.properties)),
            )
            &&& json::member(written, "additionalProperties"@) == Some(
                json::Json::Bool(parameters.additional_properties),
            )
            &&& match parameters.required {
                Some(required) => json::member(written, "required"@) matches Some(
                    json::Json::Array(list),
                ) && list.len() == required.len() && forall|i: int|
                    0 <= i < required.len() ==> #[trigger] list[i] == json::Json::Text(
                        required[i],
                    ),
                None => json::member(written, "required"@) == Some(json::Json::Null),
            }
        }),
{
    lemma_schema_names();
}

/// A tool is written with its type, its name, what it is for, its parameters and whether they are
/// strict; the web search with its type alone.
pub proof fn law_tools_are_written(f: ToolView, kind: Seq<char>, name: Seq<char>)
    ensures
        ({
            let written = tool_json(ApiToolView::Function(f));
            &&& json::member(written, "type"@) == Some(json::Json::Text(f.kind))
            &&& json::member(written, "name"@) == Some(json::Json::Text(f.name))
            &&& json::member(written, "description"@) == Some(
                match f.description {
                    Some(s) => json::Json::Text(s),
                    None => json::Json::Null,
                },
            )
            &&& json::member(written, "parameters"@) == Some(
                match f.parameters {
                    Some(p) => parameters_json(p),
                    None => json::Json::Null,
                },
            )
            &&& json::member(written, "strict"@) == Some(
                match f.strict {
                    Some(flag) => json::Json::Bool(flag),
                    None => json::Json::Null,
                },
            )
        }),
        json::member(tool_json(ApiToolView::WebSearch(kind)), name) == if name == "type"@ {
            Some(json::Json::Text(kind))
        } else {
            None
        },
{
    lemma_schema_names();
}

/// A tool in strict mode is a function that requires each of its parameters and allows no others.
pub proof fn law_strict_tools_require_everything(
    name: Seq<char>,
    description: Option<Seq<char>>,
    given: Option<ParametersView>,
)
    ensures
        ({
            let tool = strict_tool(name, description, given);
            &&& tool.kind == "function"@
            &&& tool.name == name
            &&& tool.description == description
            &&& tool.strict == Some(true)
            &&& tool.parameters matches Some(p) && !p.additional_properties && p.properties
                == match given {
                Some(g) => g.properties,
                None => seq![],
            } && (given matches Some(g) ==> p.kind == g.kind) && (given is None ==> p.kind
                == "object"@) && (p.required matches Some(required) && required.len()
                == p.properties.len() && forall|i: int|
                0 <= i < required.len() ==> #[trigger] required[i] == p.properties[i].0)
        }),
{
}

/// Each item of the input is written as what it is: a text as itself, a message with its role and
/// content, what a tool gave and the call of a tool with the id of the call.
pub proof fn law_items_are_written(
    s: Seq<char>,
    m: InputMessageObject<Seq<char>>,
    o: FunctionCallOutputItem<Seq<char>>,
    e: FunctionCallEchoItem<Seq<char>>,
)
    ensures
        item_json(InputItem::Text(s)) == json::Json::Text(s),
        json::text_member(item_json(InputItem::Message(m)), "role"@) == Some(m.role),
        json::text_member(item_json(InputItem::Message(m)), "content"@) == Some(m.content),
        json::text_member(item_json(InputItem::FunctionCallOutput(o)), "type"@) == Some(o.kind),
        json::text_member(item_json(InputItem::FunctionCallOutput(o)), "call_id"@) == Some(
            o.call_id,
        ),
        json::text_member(item_json(InputItem::FunctionCallOutput(o)), "output"@) == Some(o.output),
        json::text_member(item_json(InputItem::FunctionCallEcho(e)), "type"@) == Some(e.kind),
        json::text_member(item_json(InputItem::FunctionCallEcho(e)), "call_id"@) == Some(e.call_id),
        json::text_member(item_json(InputItem::FunctionCallEcho(e)), "name"@) == Some(e.name),
        json::text_member(item_json(InputItem::FunctionCallEcho(e)), "arguments"@) == Some(
            e.arguments,
        ),
{
    lemma_schema_names();
}

/// A message is of the role and says the content that it is made of; what a tool gave is answered
/// under the id of the call.
pub proof fn law_items_say_what_they_are_made_of(a: Seq<char>, b: Seq<char>)
    ensures
        message_item(a, b) matches InputItem::Message(m) && m.role == a && m.content == b,
        call_output_item(a, b) matches InputItem::FunctionCallOutput(o) && o.kind
            == "function_call_output"@ && o.call_id == a && o.output == b,
{
}

/// What stands for a tool, a parameter, an item of input or a call keeps every part of it, and what
/// stands for a list keeps each in its place.
pub proof fn law_views_keep_every_part(
    property: ToolFunctionParameterProperty,
    parameters: ToolFunctionParameters,
    f: ToolDefinition,
    w: WebSearchToolConfig,
    call: OutputFunctionCall,
    m: InputMessageObject,
    o: FunctionCallOutputItem,
    e: FunctionCallEchoItem,
    s: String,
)
    ensures
        property@.kind == property.kind@,
        property@.description == text::text_view(property.description),
        property.enum_values matches Some(list) ==> property@.enum_values == Some(
            text::texts(list@),
        ),
        property.enum_values is None ==> property@.enum_values is None,
        parameters@.kind == parameters.kind@,
        parameters@.properties == parameters.properties@,
        parameters.required matches Some(list) ==> parameters@.required == Some(
            text::texts(list@),
        ),
        parameters.required is None ==> parameters@.required is None,
        parameters@.additional_properties == parameters.additional_properties,
        f@.kind == f.kind@ && f@.name == f.name@ && f@.description == text::text_view(
            f.description,
        ) && f@.strict == f.strict,
        f.parameters matches Some(p) ==> f@.parameters == Some(p@),
        f.parameters is None ==> f@.parameters is None,
        ApiToolType::Function(f)@ == ApiToolView::Function(f@),
        ApiToolType::WebSearch(w)@ == ApiToolView::WebSearch(w.kind@),
        call@.kind == call.kind@ && call@.id == call.id@ && call@.call_id == call.call_id@
            && call@.name == call.name@ && call@.arguments == call.arguments@,
        InputItem::Text(s)@ == InputItem::Text(s@),
        InputItem::Message(m)@ == InputItem::Message(
            InputMessageObject { role: m.role@, content: m.content@ },
        ),
        InputItem::FunctionCallOutput(o)@ == InputItem::FunctionCallOutput(
            FunctionCallOutputItem { kind: o.kind@, call_id: o.call_id@, output: o.output@ },
        ),
        InputItem::FunctionCallEcho(e)@ == InputItem::FunctionCallEcho(
            FunctionCallEchoItem {
                kind: e.kind@,
                call_id: e.call_id@,
                name: e.name@,
                arguments: e.arguments@,
            },
        ),
{
}

/// What stands for a list of tools, items or texts keeps each of them in its place.
pub proof fn law_lists_keep_their_order(
    tools: Seq<ApiToolType>,
    items: Seq<InputItem>,
    values: Seq<&str>,
)
    ensures
        tool_views(tools).len() == tools.len(),
        forall|i: int| 0 <= i < tools.len() ==> #[trigger] tool_views(tools)[i] == tools[i]@,
        item_views(items).len() == items.len(),
        forall|i: int| 0 <= i < items.len() ==> #[trigger] item_views(items)[i] == items[i]@,
        slice_texts(values).len() == values.len(),
        forall|i: int| 0 <= i < values.len() ==> #[trigger] slice_texts(values)[i] == values[i]@,
{
}

} // verus!

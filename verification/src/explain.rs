//! The engine's EXPLAIN plan document: its root node, and the column list
//! that the root node carries.

use vstd::prelude::*;
use crate::json::{
    all_present, json_text_value, lemma_all_present, parse_json, Json, JsonValue,
};
use crate::text::to_chars;

verus! {

/// Why a plan document could not be read.
#[derive(Clone, Copy, Debug, PartialEq, Eq, Structural)]
pub enum SchemaParseError {
    /// The text is no JSON document.
    MalformedJson,
    /// The root node has no `outputs` member.
    MissingOutputs,
    /// The `outputs` member is no list of `{symbol, type}` entries.
    MalformedOutputs,
    /// Another part of the plan has not the shape that a plan has.
    MalformedPlan,
}

/// One output column of a plan node: the symbol the engine gave it and the
/// engine's name for its type.
#[derive(Clone, Debug, PartialEq, Eq)]
pub struct Output {
    pub symbol: String,
    pub raw_type: String,
}

/// The model of an [`Output`].
pub struct OutputModel {
    pub symbol: Seq<char>,
    pub raw_type: Seq<char>,
}

impl View for Output {
    type V = OutputModel;

    open spec fn view(&self) -> OutputModel {
        OutputModel { symbol: self.symbol@, raw_type: self.raw_type@ }
    }
}

impl DeepView for Output {
    type V = OutputModel;

    open spec fn deep_view(&self) -> OutputModel {
        self@
    }
}

/// The descriptor of the root node.
#[derive(Clone, Debug, PartialEq, Eq)]
pub struct Descriptor {
    pub column_names: String,
}

impl DeepView for Descriptor {
    type V = Seq<char>;

    open spec fn deep_view(&self) -> Seq<char> {
        self.column_names@
    }
}

/// One detail of the root node.
#[derive(Clone, Debug, PartialEq, Eq)]
pub enum Detail {
    String(String),
}

impl DeepView for Detail {
    type V = Seq<char>;

    open spec fn deep_view(&self) -> Seq<char> {
        match self {
            Detail::String(text) => text@,
        }
    }
}

/// The cost estimates of a plan node. Each holds the text of the number that
/// the engine computed, and nothing where it computed none.
#[derive(Clone, Debug, PartialEq, Eq)]
pub struct Estimate {
    pub output_row_count: Option<String>,
    pub output_size_in_bytes: Option<String>,
    pub cpu_cost: Option<String>,
    pub memory_cost: Option<String>,
    pub network_cost: Option<String>,
}

/// The model of an [`Estimate`].
pub struct EstimateModel {
    pub output_row_count: Option<Seq<char>>,
    pub output_size_in_bytes: Option<Seq<char>>,
    pub cpu_cost: Option<Seq<char>>,
    pub memory_cost: Option<Seq<char>>,
    pub network_cost: Option<Seq<char>>,
}

impl DeepView for Estimate {
    type V = EstimateModel;

    open spec fn deep_view(&self) -> EstimateModel {
        EstimateModel {
            output_row_count: self.output_row_count.deep_view(),
            output_size_in_bytes: self.output_size_in_bytes.deep_view(),
            cpu_cost: self.cpu_cost.deep_view(),
            memory_cost: self.memory_cost.deep_view(),
            network_cost: self.network_cost.deep_view(),
        }
    }
}

/// The descriptor of a child node.
#[derive(Clone, Debug, PartialEq, Eq)]
pub struct ChildDescriptor {
    pub table: Option<String>,
}

impl DeepView for ChildDescriptor {
    type V = Option<Seq<char>>;

    open spec fn deep_view(&self) -> Option<Seq<char>> {
        self.table.deep_view()
    }
}

/// A child of the root node.
#[derive(Clone, Debug, PartialEq, Eq)]
pub struct Child {
    pub id: String,
    pub name: String,
    pub descriptor: ChildDescriptor,
    pub outputs: Vec<Output>,
    pub details: Vec<String>,
}

/// The model of a [`Child`].
pub struct ChildModel {
    pub id: Seq<char>,
    pub name: Seq<char>,
    pub descriptor: Option<Seq<char>>,
    pub outputs: Seq<OutputModel>,
    pub details: Seq<Seq<char>>,
}

impl DeepView for Child {
    type V = ChildModel;

    open spec fn deep_view(&self) -> ChildModel {
        ChildModel {
            id: self.id@,
            name: self.name@,
            descriptor: self.descriptor.deep_view(),
            outputs: self.outputs.deep_view(),
            details: self.details.deep_view(),
        }
    }
}

/// The root node of a plan.
#[derive(Clone, Debug, PartialEq, Eq)]
pub struct ExplainRoot {
    pub id: String,
    pub name: String,
    pub descriptor: Descriptor,
    pub outputs: Vec<Output>,
    pub details: Vec<Detail>,
    pub estimates: Vec<Estimate>,
    pub children: Vec<Child>,
}

/// The model of an [`ExplainRoot`].
pub struct ExplainRootModel {
    pub id: Seq<char>,
    pub name: Seq<char>,
    pub descriptor: Seq<char>,
    pub outputs: Seq<OutputModel>,
    pub details: Seq<Seq<char>>,
    pub estimates: Seq<EstimateModel>,
    pub children: Seq<ChildModel>,
}

impl DeepView for ExplainRoot {
    type V = ExplainRootModel;

    open spec fn deep_view(&self) -> ExplainRootModel {
        ExplainRootModel {
            id: self.id@,
            name: self.name@,
            descriptor: self.descriptor.deep_view(),
            outputs: self.outputs.deep_view(),
            details: self.details.deep_view(),
            estimates: self.estimates.deep_view(),
            children: self.children.deep_view(),
        }
    }
}

/// The text `nan`, in any mix of upper and lower case.
pub open spec fn is_nan_text(text: Seq<char>) -> bool {
    &&& text.len() == 3
    &&& (text[0] == 'n' || text[0] == 'N')
    &&& (text[1] == 'a' || text[1] == 'A')
    &&& (text[2] == 'n' || text[2] == 'N')
}

/// Whether `text` is `nan` in any mix of upper and lower case.
pub fn nan_text(text: &str) -> (r: bool)
    ensures
        r == is_nan_text(text@),
{
    let chars = to_chars(text);
    chars.len() == 3 && (chars[0] == 'n' || chars[0] == 'N') && (chars[1] == 'a' || chars[1]
        == 'A') && (chars[2] == 'n' || chars[2] == 'N')
}

/// The number that an estimate holds: the text of a number that does not read
/// `nan`. Anything else stands for a value that was not computed.
pub open spec fn nan_as_none_spec(value: JsonValue) -> Option<Seq<char>> {
    match value {
        JsonValue::Number(text) => if is_nan_text(text) {
            None
        } else {
            Some(text)
        },
        _ => None,
    }
}

/// Reads an estimate. A number is present; the text `"NaN"`, in any case,
/// and every other value mean that the engine computed none. Never fails.
pub fn nan_as_none(value: &Json) -> (number: Option<String>)
    ensures
        number.deep_view() == nan_as_none_spec(value@),
{
    match value {
        Json::Number(text) => {
            if nan_text(text.as_str()) {
                None
            } else {
                Some(text.clone())
            }
        },
        _ => None,
    }
}

/// The sentinel means that no number was computed, in whatever case it is
/// written; every number that does not read as the sentinel is present, and
/// no value is an error.
pub proof fn lemma_nan_sentinel(value: JsonValue)
    ensures
        is_nan_text("NaN"@),
        is_nan_text("nan"@),
        value is String ==> nan_as_none_spec(value) is None,
        value matches JsonValue::Number(text) ==> nan_as_none_spec(value) == (if is_nan_text(
            text,
        ) {
            None
        } else {
            Some(text)
        }),
{
    reveal_strlit("NaN");
    reveal_strlit("nan");
}

/// The string member `key` of a value.
pub open spec fn text_member(doc: JsonValue, key: Seq<char>) -> Option<Seq<char>> {
    match Json::member_spec(doc, key) {
        Some(JsonValue::String(text)) => Some(text),
        _ => None,
    }
}

/// The list member `key` of a value.
pub open spec fn list_member(doc: JsonValue, key: Seq<char>) -> Option<Seq<JsonValue>> {
    match Json::member_spec(doc, key) {
        Some(JsonValue::Array(items)) => Some(items),
        _ => None,
    }
}

/// The column that an entry of `outputs` describes.
pub open spec fn output_spec(entry: JsonValue) -> Option<OutputModel> {
    match (text_member(entry, "symbol"@), text_member(entry, "type"@)) {
        (Some(symbol), Some(raw_type)) => Some(OutputModel { symbol, raw_type }),
        _ => None,
    }
}

/// The columns that a list of entries describes, in the order of the list.
pub open spec fn output_list_spec(entries: Seq<JsonValue>) -> Option<Seq<OutputModel>> {
    all_present(Seq::new(entries.len(), |i: int| output_spec(entries[i])))
}

/// The columns of a plan node.
pub open spec fn outputs_spec(doc: JsonValue) -> Result<Seq<OutputModel>, SchemaParseError> {
    match Json::member_spec(doc, "outputs"@) {
        None => Err(SchemaParseError::MissingOutputs),
        Some(JsonValue::Array(entries)) => match output_list_spec(entries) {
            Some(columns) => Ok(columns),
            None => Err(SchemaParseError::MalformedOutputs),
        },
        Some(_) => Err(SchemaParseError::MalformedOutputs),
    }
}

/// The columns of the plan that a text holds.
pub open spec fn parse_spec(text: Seq<char>) -> Result<Seq<OutputModel>, SchemaParseError> {
    match json_text_value(text) {
        None => Err(SchemaParseError::MalformedJson),
        Some(doc) => outputs_spec(doc),
    }
}

fn read_text_member(doc: &Json, key: &str) -> (text: Option<String>)
    ensures
        text.deep_view() == text_member(doc@, key@),
{
    match doc.member(key) {
        Some(Json::String(text)) => Some(text.clone()),
        _ => None,
    }
}

fn read_list_member<'a>(doc: &'a Json, key: &str) -> (items: Option<&'a Vec<Json>>)
    ensures
        items.deep_view() == list_member(doc@, key@),
{
    match doc.member(key) {
        Some(value) => value.items(),
        None => None,
    }
}

fn read_output(entry: &Json) -> (column: Option<Output>)
    ensures
        column.deep_view() == output_spec(entry@),
{
    match (read_text_member(entry, "symbol"), read_text_member(entry, "type")) {
        (Some(symbol), Some(raw_type)) => Some(Output { symbol, raw_type }),
        _ => None,
    }
}

fn read_output_list(entries: &Vec<Json>) -> (columns: Option<Vec<Output>>)
    ensures
        columns.deep_view() == output_list_spec(entries.deep_view()),
{
    let ghost models = entries.deep_view();
    let ghost read = Seq::new(models.len(), |i: int| output_spec(models[i]));
    let mut columns: Vec<Output> = Vec::new();
    let mut i: usize = 0;
    while i < entries.len()
        invariant
            i <= entries.len(),
            models == entries.deep_view(),
            read == Seq::new(models.len(), |i: int| output_spec(models[i])),
            columns@.len() == i,
            forall|k: int| 0 <= k < i ==> (#[trigger] read[k]) == Some(columns@[k]@),
        decreases entries.len() - i,
    {
        match read_output(&entries[i]) {
            Some(column) => {
                columns.push(column);
            },
            None => {
                assert(read[i as int] is None);
                return None;
            },
        }
        i += 1;
    }
    proof {
        lemma_all_present(read, columns.deep_view());
    }
    Some(columns)
}

/// Extracts the column list of a plan node, in declaration order.
pub fn read_outputs(doc: &Json) -> (columns: Result<Vec<Output>, SchemaParseError>)
    ensures
        match columns {
            Ok(list) => outputs_spec(doc@) == Ok::<_, SchemaParseError>(list.deep_view()),
            Err(e) => outputs_spec(doc@) == Err::<Seq<OutputModel>, _>(e),
        },
{
    match doc.member("outputs") {
        None => Err(SchemaParseError::MissingOutputs),
        Some(value) => match value.items() {
            None => Err(SchemaParseError::MalformedOutputs),
            Some(entries) => match read_output_list(entries) {
                Some(columns) => Ok(columns),
                None => Err(SchemaParseError::MalformedOutputs),
            },
        },
    }
}

/// Extracts the output columns of the root node of a plan, in declaration
/// order.
///
/// Fails on a text that is no JSON document, on a root without `outputs`,
/// and on an `outputs` that is no list of entries with a string `symbol` and
/// a string `type`. The rest of the document is not looked at.
pub fn parse(explain_json: &str) -> (columns: Result<Vec<Output>, SchemaParseError>)
    ensures
        match columns {
            Ok(list) => parse_spec(explain_json@) == Ok::<_, SchemaParseError>(list.deep_view()),
            Err(e) => parse_spec(explain_json@) == Err::<Seq<OutputModel>, _>(e),
        },
{
    match parse_json(explain_json) {
        None => Err(SchemaParseError::MalformedJson),
        Some(doc) => read_outputs(&doc),
    }
}

/// The texts of a list of strings.
pub open spec fn text_list_spec(items: Seq<JsonValue>) -> Option<Seq<Seq<char>>> {
    all_present(Seq::new(items.len(), |i: int| Json::text_spec(items[i])))
}

/// The member `key` of a value where it is a string, nothing where the value
/// has no such member or has `null` for it.
pub open spec fn optional_text_member(doc: JsonValue, key: Seq<char>) -> Option<
    Option<Seq<char>>,
> {
    match Json::member_spec(doc, key) {
        None => Some(None),
        Some(JsonValue::Null) => Some(None),
        Some(JsonValue::String(text)) => Some(Some(text)),
        Some(_) => None,
    }
}

/// The estimates that an entry of `estimates` holds. All five members must be
/// there; each may hold anything.
pub open spec fn estimate_spec(entry: JsonValue) -> Option<EstimateModel> {
    match (
        Json::member_spec(entry, "outputRowCount"@),
        Json::member_spec(entry, "outputSizeInBytes"@),
        Json::member_spec(entry, "cpuCost"@),
        Json::member_spec(entry, "memoryCost"@),
        Json::member_spec(entry, "networkCost"@),
    ) {
        (Some(rows), Some(size), Some(cpu), Some(memory), Some(network)) => Some(
            EstimateModel {
                output_row_count: nan_as_none_spec(rows),
                output_size_in_bytes: nan_as_none_spec(size),
                cpu_cost: nan_as_none_spec(cpu),
                memory_cost: nan_as_none_spec(memory),
                network_cost: nan_as_none_spec(network),
            },
        ),
        _ => None,
    }
}

/// The estimates of a list of entries.
pub open spec fn estimate_list_spec(entries: Seq<JsonValue>) -> Option<Seq<EstimateModel>> {
    all_present(Seq::new(entries.len(), |i: int| estimate_spec(entries[i])))
}

/// The descriptor of a child node: an object whose `table`, if it has one, is
/// a string.
pub open spec fn child_descriptor_spec(entry: JsonValue) -> Option<Option<Seq<char>>> {
    match Json::member_spec(entry, "descriptor"@) {
        Some(JsonValue::Object(members)) => optional_text_member(
            JsonValue::Object(members),
            "table"@,
        ),
        _ => None,
    }
}

/// The child node that an entry of `children` describes.
pub open spec fn child_spec(entry: JsonValue) -> Option<ChildModel> {
    match (
        text_member(entry, "id"@),
        text_member(entry, "name"@),
        child_descriptor_spec(entry),
        list_member(entry, "outputs"@),
        list_member(entry, "details"@),
    ) {
        (Some(id), Some(name), Some(descriptor), Some(outputs), Some(details)) => match (
            output_list_spec(outputs),
            text_list_spec(details),
        ) {
            (Some(outputs), Some(details)) => Some(
                ChildModel { id, name, descriptor, outputs, details },
            ),
            _ => None,
        },
        _ => None,
    }
}

/// The child nodes of a list of entries.
pub open spec fn child_list_spec(entries: Seq<JsonValue>) -> Option<Seq<ChildModel>> {
    all_present(Seq::new(entries.len(), |i: int| child_spec(entries[i])))
}

/// The descriptor of the root node: the `columnNames` of its `descriptor`.
pub open spec fn descriptor_spec(doc: JsonValue) -> Option<Seq<char>> {
    match Json::member_spec(doc, "descriptor"@) {
        Some(descriptor) => text_member(descriptor, "columnNames"@),
        None => None,
    }
}

/// What stands in a plan besides its columns.
pub open spec fn plan_body_spec(doc: JsonValue, outputs: Seq<OutputModel>) -> Option<
    ExplainRootModel,
> {
    match (
        text_member(doc, "id"@),
        text_member(doc, "name"@),
        descriptor_spec(doc),
        list_member(doc, "details"@),
        list_member(doc, "estimates"@),
        list_member(doc, "children"@),
    ) {
        (
            Some(id),
            Some(name),
            Some(descriptor),
            Some(details),
            Some(estimates),
            Some(children),
        ) => match (
            text_list_spec(details),
            estimate_list_spec(estimates),
            child_list_spec(children),
        ) {
            (Some(details), Some(estimates), Some(children)) => Some(
                ExplainRootModel { id, name, descriptor, outputs, details, estimates, children },
            ),
            _ => None,
        },
        _ => None,
    }
}

/// The root node that a document describes. The columns are read first, and
/// their errors come first.
pub open spec fn explain_root_spec(doc: JsonValue) -> Result<ExplainRootModel, SchemaParseError> {
    match outputs_spec(doc) {
        Err(e) => Err(e),
        Ok(outputs) => match plan_body_spec(doc, outputs) {
            Some(root) => Ok(root),
            None => Err(SchemaParseError::MalformedPlan),
        },
    }
}

fn read_optional_text_member(doc: &Json, key: &str) -> (text: Option<Option<String>>)
    ensures
        text.deep_view() == optional_text_member(doc@, key@),
{
    match doc.member(key) {
        None => Some(None),
        Some(Json::Null) => Some(None),
        Some(Json::String(text)) => Some(Some(text.clone())),
        Some(_) => None,
    }
}

fn read_text_list(items: &Vec<Json>) -> (texts: Option<Vec<String>>)
    ensures
        texts.deep_view() == text_list_spec(items.deep_view()),
{
    let ghost models = items.deep_view();
    let ghost read = Seq::new(models.len(), |i: int| Json::text_spec(models[i]));
    let mut texts: Vec<String> = Vec::new();
    let mut i: usize = 0;
    while i < items.len()
        invariant
            i <= items.len(),
            models == items.deep_view(),
            read == Seq::new(models.len(), |i: int| Json::text_spec(models[i])),
            texts@.len() == i,
            forall|k: int| 0 <= k < i ==> (#[trigger] read[k]) == Some(texts@[k]@),
        decreases items.len() - i,
    {
        match items[i].text() {
            Some(text) => {
                texts.push(text.clone());
            },
            None => {
                assert(read[i as int] is None);
                return None;
            },
        }
        i += 1;
    }
    proof {
        lemma_all_present(read, texts.deep_view());
    }
    Some(texts)
}

fn read_detail_list(items: &Vec<Json>) -> (details: Option<Vec<Detail>>)
    ensures
        details.deep_view() == text_list_spec(items.deep_view()),
{
    let ghost models = items.deep_view();
    let ghost read = Seq::new(models.len(), |i: int| Json::text_spec(models[i]));
    let mut details: Vec<Detail> = Vec::new();
    let mut i: usize = 0;
    while i < items.len()
        invariant
            i <= items.len(),
            models == items.deep_view(),
            read == Seq::new(models.len(), |i: int| Json::text_spec(models[i])),
            details@.len() == i,
            forall|k: int| 0 <= k < i ==> (#[trigger] read[k]) == Some(details@[k].deep_view()),
        decreases items.len() - i,
    {
        match items[i].text() {
            Some(text) => {
                details.push(Detail::String(text.clone()));
            },
            None => {
                assert(read[i as int] is None);
                return None;
            },
        }
        i += 1;
    }
    proof {
        lemma_all_present(read, details.deep_view());
    }
    Some(details)
}

fn read_estimate(entry: &Json) -> (estimate: Option<Estimate>)
    ensures
        estimate.deep_view() == estimate_spec(entry@),
{
    match (
        entry.member("outputRowCount"),
        entry.member("outputSizeInBytes"),
        entry.member("cpuCost"),
        entry.member("memoryCost"),
        entry.member("networkCost"),
    ) {
        (Some(rows), Some(size), Some(cpu), Some(memory), Some(network)) => Some(
            Estimate {
                output_row_count: nan_as_none(rows),
                output_size_in_bytes: nan_as_none(size),
                cpu_cost: nan_as_none(cpu),
                memory_cost: nan_as_none(memory),
                network_cost: nan_as_none(network),
            },
        ),
        _ => None,
    }
}

fn read_estimate_list(entries: &Vec<Json>) -> (estimates: Option<Vec<Estimate>>)
    ensures
        estimates.deep_view() == estimate_list_spec(entries.deep_view()),
{
    let ghost models = entries.deep_view();
    let ghost read = Seq::new(models.len(), |i: int| estimate_spec(models[i]));
    let mut estimates: Vec<Estimate> = Vec::new();
    let mut i: usize = 0;
    while i < entries.len()
        invariant
            i <= entries.len(),
            models == entries.deep_view(),
            read == Seq::new(models.len(), |i: int| estimate_spec(models[i])),
            estimates@.len() == i,
            forall|k: int| 0 <= k < i ==> (#[trigger] read[k]) == Some(estimates@[k].deep_view()),
        decreases entries.len() - i,
    {
        match read_estimate(&entries[i]) {
            Some(estimate) => {
                estimates.push(estimate);
            },
            None => {
                assert(read[i as int] is None);
                return None;
            },
        }
        i += 1;
    }
    proof {
        lemma_all_present(read, estimates.deep_view());
    }
    Some(estimates)
}

fn read_child_descriptor(entry: &Json) -> (descriptor: Option<ChildDescriptor>)
    ensures
        descriptor.deep_view() == child_descriptor_spec(entry@),
{
    match entry.member("descriptor") {
        Some(value) => match value {
            Json::Object(_) => match read_optional_text_member(value, "table") {
                Some(table) => Some(ChildDescriptor { table }),
                None => None,
            },
            _ => None,
        },
        None => None,
    }
}

fn read_child(entry: &Json) -> (child: Option<Child>)
    ensures
        child.deep_view() == child_spec(entry@),
{
    let id = read_text_member(entry, "id");
    let name = read_text_member(entry, "name");
    let descriptor = read_child_descriptor(entry);
    let outputs = read_list_member(entry, "outputs");
    let details = read_list_member(entry, "details");
    match (id, name, descriptor, outputs, details) {
        (Some(id), Some(name), Some(descriptor), Some(outputs), Some(details)) => match (
            read_output_list(outputs),
            read_text_list(details),
        ) {
            (Some(outputs), Some(details)) => Some(
                Child { id, name, descriptor, outputs, details },
            ),
            _ => None,
        },
        _ => None,
    }
}

fn read_child_list(entries: &Vec<Json>) -> (children: Option<Vec<Child>>)
    ensures
        children.deep_view() == child_list_spec(entries.deep_view()),
{
    let ghost models = entries.deep_view();
    let ghost read = Seq::new(models.len(), |i: int| child_spec(models[i]));
    let mut children: Vec<Child> = Vec::new();
    let mut i: usize = 0;
    while i < entries.len()
        invariant
            i <= entries.len(),
            models == entries.deep_view(),
            read == Seq::new(models.len(), |i: int| child_spec(models[i])),
            children@.len() == i,
            forall|k: int| 0 <= k < i ==> (#[trigger] read[k]) == Some(children@[k].deep_view()),
        decreases entries.len() - i,
    {
        match read_child(&entries[i]) {
            Some(child) => {
                children.push(child);
            },
            None => {
                assert(read[i as int] is None);
                return None;
            },
        }
        i += 1;
    }
    proof {
        lemma_all_present(read, children.deep_view());
    }
    Some(children)
}

fn read_descriptor(doc: &Json) -> (descriptor: Option<Descriptor>)
    ensures
        descriptor.deep_view() == descriptor_spec(doc@),
{
    match doc.member("descriptor") {
        Some(value) => match read_text_member(value, "columnNames") {
            Some(column_names) => Some(Descriptor { column_names }),
            None => None,
        },
        None => None,
    }
}

fn read_plan_body(doc: &Json, outputs: Vec<Output>) -> (root: Option<ExplainRoot>)
    ensures
        root.deep_view() == plan_body_spec(doc@, outputs.deep_view()),
{
    let id = read_text_member(doc, "id");
    let name = read_text_member(doc, "name");
    let descriptor = read_descriptor(doc);
    let details = read_list_member(doc, "details");
    let estimates = read_list_member(doc, "estimates");
    let children = read_list_member(doc, "children");
    match (id, name, descriptor, details, estimates, children) {
        (
            Some(id),
            Some(name),
            Some(descriptor),
            Some(details),
            Some(estimates),
            Some(children),
        ) => match (
            read_detail_list(details),
            read_estimate_list(estimates),
            read_child_list(children),
        ) {
            (Some(details), Some(estimates), Some(children)) => Some(
                ExplainRoot { id, name, descriptor, outputs, details, estimates, children },
            ),
            _ => None,
        },
        _ => None,
    }
}

impl ExplainRoot {
    /// Reads the root node of a plan from a JSON document.
    ///
    /// Members that a plan does not know are passed over. A missing or
    /// malformed column list is reported as such; any other member that is
    /// missing or has the wrong shape makes the plan malformed.
    pub fn from_json(doc: &Json) -> (root: Result<ExplainRoot, SchemaParseError>)
        ensures
            match root {
                Ok(plan) => explain_root_spec(doc@) == Ok::<_, SchemaParseError>(plan.deep_view()),
                Err(e) => explain_root_spec(doc@) == Err::<ExplainRootModel, _>(e),
            },
    {
        match read_outputs(doc) {
            Err(e) => Err(e),
            Ok(outputs) => match read_plan_body(doc, outputs) {
                Some(root) => Ok(root),
                None => Err(SchemaParseError::MalformedPlan),
            },
        }
    }

    /// Reads the root node of a plan from JSON text.
    pub fn from_text(text: &str) -> (root: Result<ExplainRoot, SchemaParseError>)
        ensures
            match (root, json_text_value(text@)) {
                (Ok(plan), Some(doc)) => explain_root_spec(doc) == Ok::<_, SchemaParseError>(
                    plan.deep_view(),
                ),
                (Err(e), Some(doc)) => explain_root_spec(doc) == Err::<ExplainRootModel, _>(e),
                (Err(e), None) => e == SchemaParseError::MalformedJson,
                (Ok(_), None) => false,
            },
    {
        match parse_json(text) {
            None => Err(SchemaParseError::MalformedJson),
            Some(doc) => Self::from_json(&doc),
        }
    }
}

} // verus!

//! Instrument values, parameter metadata, and virtual-instrument descriptors.
//!
//! Numbers are carried as the bit patterns of IEEE-754 binary64 values; `crate::binary64`
//! states their classification and order.
use vstd::prelude::*;

use crate::text::{decimal, push_decimal, push_str};

verus! {

/// A parameter value. `Number` holds the bit pattern of an IEEE-754 binary64 value.
#[derive(Clone, Copy, Debug, PartialEq, Eq, Structural)]
pub enum InstrumentValue {
    Boolean(bool),
    Integer(i64),
    Number(u64),
}

#[derive(Clone, Copy, Debug, PartialEq, Eq, Structural)]
pub enum ParameterAccess {
    ReadOnly,
    WriteOnly,
    ReadWrite,
}

impl ParameterAccess {
    pub open spec fn is_readable(self) -> bool {
        self is ReadOnly || self is ReadWrite
    }

    pub open spec fn is_writable(self) -> bool {
        self is WriteOnly || self is ReadWrite
    }

    pub fn readable(self) -> (readable: bool)
        ensures
            readable == self.is_readable(),
    {
        match self {
            ParameterAccess::ReadOnly | ParameterAccess::ReadWrite => true,
            ParameterAccess::WriteOnly => false,
        }
    }

    pub fn writable(self) -> (writable: bool)
        ensures
            writable == self.is_writable(),
    {
        match self {
            ParameterAccess::WriteOnly | ParameterAccess::ReadWrite => true,
            ParameterAccess::ReadOnly => false,
        }
    }
}

#[derive(Clone, Copy, Debug, PartialEq, Eq, Structural)]
pub enum ParameterValueType {
    Boolean,
    Integer,
    Number,
}

/// The name of a value type, as descriptions show it.
pub open spec fn value_type_name(value_type: ParameterValueType) -> Seq<char> {
    match value_type {
        ParameterValueType::Boolean => "boolean"@,
        ParameterValueType::Integer => "integer"@,
        ParameterValueType::Number => "number"@,
    }
}

/// The type of a value.
pub open spec fn type_of_value(value: InstrumentValue) -> ParameterValueType {
    match value {
        InstrumentValue::Boolean(_) => ParameterValueType::Boolean,
        InstrumentValue::Integer(_) => ParameterValueType::Integer,
        InstrumentValue::Number(_) => ParameterValueType::Number,
    }
}

impl ParameterValueType {
    pub fn as_str(self) -> (name: &'static str)
        ensures
            name@ == value_type_name(self),
    {
        match self {
            ParameterValueType::Boolean => "boolean",
            ParameterValueType::Integer => "integer",
            ParameterValueType::Number => "number",
        }
    }
}

/// The type of a value.
pub fn instrument_value_type(value: InstrumentValue) -> (value_type: ParameterValueType)
    ensures
        value_type == type_of_value(value),
{
    match value {
        InstrumentValue::Boolean(_) => ParameterValueType::Boolean,
        InstrumentValue::Integer(_) => ParameterValueType::Integer,
        InstrumentValue::Number(_) => ParameterValueType::Number,
    }
}

/// An inclusive value range. `Number` bounds are IEEE-754 binary64 bit patterns.
#[derive(Clone, Copy, Debug, PartialEq, Eq, Structural)]
pub enum ParameterRange {
    Integer { minimum: i64, maximum: i64 },
    Number { minimum: u64, maximum: u64 },
}

/// Static metadata of a built-in parameter.
#[derive(Clone, Copy, Debug, PartialEq, Eq)]
pub struct ParameterDescriptor {
    pub key: &'static str,
    pub name: &'static str,
    pub access: ParameterAccess,
    pub value_type: ParameterValueType,
    pub range: ParameterRange,
}

#[derive(Clone, Copy, Debug, PartialEq, Eq, Hash, Structural)]
pub struct VirtualInstrumentId(pub u16);

impl VirtualInstrumentId {
    pub fn new(value: u16) -> (id: Self)
        ensures
            id.0 == value,
    {
        VirtualInstrumentId(value)
    }

    pub fn value(self) -> (value: u16)
        ensures
            value == self.0,
    {
        self.0
    }

    /// The identifier in decimal.
    pub fn to_string(&self) -> (text: String)
        ensures
            text@ == decimal(self.0 as nat),
    {
        crate::text::decimal_text(self.0 as u64)
    }
}

#[derive(Clone, Copy, Debug, PartialEq, Eq, Hash, Structural)]
pub struct VirtualParameterId(pub u16);

impl VirtualParameterId {
    pub fn new(value: u16) -> (id: Self)
        ensures
            id.0 == value,
    {
        VirtualParameterId(value)
    }

    pub fn value(self) -> (value: u16)
        ensures
            value == self.0,
    {
        self.0
    }

    /// The identifier in decimal.
    pub fn to_string(&self) -> (text: String)
        ensures
            text@ == decimal(self.0 as nat),
    {
        crate::text::decimal_text(self.0 as u64)
    }
}

/// The abstract content of a virtual parameter descriptor.
pub struct ParameterDescriptorView {
    pub id: VirtualParameterId,
    pub key: Seq<char>,
    pub name: Seq<char>,
    pub access: ParameterAccess,
    pub value_type: ParameterValueType,
    pub series: bool,
    pub range: Option<ParameterRange>,
    pub unit: Option<Seq<char>>,
}

/// A parameter that a virtual instrument offers.
#[derive(Debug, PartialEq)]
pub struct VirtualParameterDescriptor {
    id: VirtualParameterId,
    key: String,
    name: String,
    access: ParameterAccess,
    value_type: ParameterValueType,
    series: bool,
    range: Option<ParameterRange>,
    unit: Option<String>,
}

impl View for VirtualParameterDescriptor {
    type V = ParameterDescriptorView;

    closed spec fn view(&self) -> ParameterDescriptorView {
        ParameterDescriptorView {
            id: self.id,
            key: self.key@,
            name: self.name@,
            access: self.access,
            value_type: self.value_type,
            series: self.series,
            range: self.range,
            unit: match self.unit {
                Some(unit) => Some(unit@),
                None => None,
            },
        }
    }
}

fn clone_optional_text(text: &Option<String>) -> (copy: Option<String>)
    ensures
        match (copy, text) {
            (Some(c), Some(t)) => c@ == t@,
            (None, None) => true,
            _ => false,
        },
{
    match text {
        Some(text) => Some(text.clone()),
        None => None,
    }
}

impl Clone for VirtualParameterDescriptor {
    fn clone(&self) -> (copy: Self)
        ensures
            copy@ == self@,
    {
        VirtualParameterDescriptor {
            id: self.id,
            key: self.key.clone(),
            name: self.name.clone(),
            access: self.access,
            value_type: self.value_type,
            series: self.series,
            range: self.range,
            unit: clone_optional_text(&self.unit),
        }
    }
}

impl VirtualParameterDescriptor {
    /// A descriptor without range or unit that is not a series.
    pub fn new(
        id: VirtualParameterId,
        key: &str,
        name: &str,
        access: ParameterAccess,
        value_type: ParameterValueType,
    ) -> (descriptor: Self)
        ensures
            descriptor@ == (ParameterDescriptorView {
                id,
                key: key@,
                name: name@,
                access,
                value_type,
                series: false,
                range: None,
                unit: None,
            }),
    {
        VirtualParameterDescriptor {
            id,
            key: key.to_owned(),
            name: name.to_owned(),
            access,
            value_type,
            series: false,
            range: None,
            unit: None,
        }
    }

    /// A descriptor built from every part of its content.
    pub fn from_parts(
        id: VirtualParameterId,
        key: String,
        name: String,
        access: ParameterAccess,
        value_type: ParameterValueType,
        series: bool,
        range: Option<ParameterRange>,
        unit: Option<String>,
    ) -> (descriptor: Self)
        ensures
            descriptor@ == (ParameterDescriptorView {
                id,
                key: key@,
                name: name@,
                access,
                value_type,
                series,
                range,
                unit: match unit {
                    Some(unit) => Some(unit@),
                    None => None,
                },
            }),
    {
        VirtualParameterDescriptor { id, key, name, access, value_type, series, range, unit }
    }

    pub fn with_series(self, series: bool) -> (descriptor: Self)
        ensures
            descriptor@ == (ParameterDescriptorView { series, ..self@ }),
    {
        VirtualParameterDescriptor { series, ..self }
    }

    pub fn with_range(self, range: ParameterRange) -> (descriptor: Self)
        ensures
            descriptor@ == (ParameterDescriptorView { range: Some(range), ..self@ }),
    {
        VirtualParameterDescriptor { range: Some(range), ..self }
    }

    pub fn with_unit(self, unit: &str) -> (descriptor: Self)
        ensures
            descriptor@ == (ParameterDescriptorView { unit: Some(unit@), ..self@ }),
    {
        VirtualParameterDescriptor { unit: Some(unit.to_owned()), ..self }
    }

    pub fn id(&self) -> (id: VirtualParameterId)
        ensures
            id == self@.id,
    {
        self.id
    }

    pub fn key(&self) -> (key: &str)
        ensures
            key@ == self@.key,
    {
        self.key.as_str()
    }

    pub fn name(&self) -> (name: &str)
        ensures
            name@ == self@.name,
    {
        self.name.as_str()
    }

    pub fn access(&self) -> (access: ParameterAccess)
        ensures
            access == self@.access,
    {
        self.access
    }

    pub fn value_type(&self) -> (value_type: ParameterValueType)
        ensures
            value_type == self@.value_type,
    {
        self.value_type
    }

    pub fn series(&self) -> (series: bool)
        ensures
            series == self@.series,
    {
        self.series
    }

    pub fn range(&self) -> (range: Option<ParameterRange>)
        ensures
            range == self@.range,
    {
        self.range
    }

    pub fn unit(&self) -> (unit: Option<&str>)
        ensures
            match (unit, self@.unit) {
                (Some(u), Some(v)) => u@ == v,
                (None, None) => true,
                _ => false,
            },
    {
        match &self.unit {
            Some(unit) => Some(unit.as_str()),
            None => None,
        }
    }
}

/// Whether no two parameters share an identifier.
pub open spec fn parameter_ids_distinct(parameters: Seq<ParameterDescriptorView>) -> bool {
    forall|i: int, j: int|
        0 <= i < j < parameters.len() ==> parameters[i].id != parameters[j].id
}

/// Whether the parameter at `index` repeats the identifier of an earlier one.
pub open spec fn repeats_earlier_parameter(parameters: Seq<ParameterDescriptorView>, index: int) -> bool {
    exists|i: int| 0 <= i < index && parameters[i].id == parameters[index].id
}

/// Whether `index` is the first position whose parameter repeats an earlier identifier.
pub open spec fn is_first_parameter_repeat(parameters: Seq<ParameterDescriptorView>, index: int) -> bool {
    &&& 0 <= index < parameters.len()
    &&& repeats_earlier_parameter(parameters, index)
    &&& forall|k: int| 0 <= k < index ==> !repeats_earlier_parameter(parameters, k)
}

/// The first position whose parameter repeats an earlier identifier (meaningful when there is one).
pub open spec fn first_parameter_repeat(parameters: Seq<ParameterDescriptorView>) -> int {
    choose|index: int| is_first_parameter_repeat(parameters, index)
}

/// At most one position is the first repeat, so `first_parameter_repeat` names it.
pub proof fn lemma_first_parameter_repeat(parameters: Seq<ParameterDescriptorView>, index: int)
    requires
        is_first_parameter_repeat(parameters, index),
    ensures
        first_parameter_repeat(parameters) == index,
        !parameter_ids_distinct(parameters),
{
    let chosen = first_parameter_repeat(parameters);
    assert(is_first_parameter_repeat(parameters, chosen));
    if chosen < index {
        assert(!repeats_earlier_parameter(parameters, chosen));
    } else if index < chosen {
        assert(!repeats_earlier_parameter(parameters, index));
    }
    let i = choose|i: int| 0 <= i < index && parameters[i].id == parameters[index].id;
    assert(parameters[i].id == parameters[index].id);
}

#[derive(Clone, Copy, Debug, PartialEq, Eq)]
pub enum VirtualInstrumentSchemaError {
    DuplicateParameterId { instrument: VirtualInstrumentId, parameter: VirtualParameterId },
}

/// The description of a schema error.
pub open spec fn schema_error_text(error: VirtualInstrumentSchemaError) -> Seq<char> {
    match error {
        VirtualInstrumentSchemaError::DuplicateParameterId { instrument, parameter } =>
            "Virtual instrument "@ + decimal(instrument.0 as nat) + " declares parameter ID "@
            + decimal(parameter.0 as nat) + " more than once"@,
    }
}

impl VirtualInstrumentSchemaError {
    pub fn to_string(&self) -> (text: String)
        ensures
            text@ == schema_error_text(*self),
    {
        match *self {
            VirtualInstrumentSchemaError::DuplicateParameterId { instrument, parameter } => {
                let mut text = String::new();
                push_str(&mut text, "Virtual instrument ");
                push_decimal(&mut text, instrument.0 as u64);
                push_str(&mut text, " declares parameter ID ");
                push_decimal(&mut text, parameter.0 as u64);
                push_str(&mut text, " more than once");
                assert(text@ =~= schema_error_text(*self));
                text
            },
        }
    }
}

/// The abstract content of a virtual instrument descriptor.
pub struct InstrumentDescriptorView {
    pub id: VirtualInstrumentId,
    pub name: Seq<char>,
    pub parameters: Seq<ParameterDescriptorView>,
}

/// A virtual instrument: its identifier, name, and parameters with distinct identifiers.
#[derive(Debug, PartialEq)]
pub struct VirtualInstrumentDescriptor {
    id: VirtualInstrumentId,
    name: String,
    parameters: Vec<VirtualParameterDescriptor>,
}

/// The views of a list of parameter descriptors.
pub open spec fn parameter_views(parameters: Seq<VirtualParameterDescriptor>) -> Seq<ParameterDescriptorView> {
    parameters.map_values(|parameter: VirtualParameterDescriptor| parameter@)
}

impl View for VirtualInstrumentDescriptor {
    type V = InstrumentDescriptorView;

    closed spec fn view(&self) -> InstrumentDescriptorView {
        InstrumentDescriptorView {
            id: self.id,
            name: self.name@,
            parameters: parameter_views(self.parameters@),
        }
    }
}

fn clone_parameters(parameters: &Vec<VirtualParameterDescriptor>) -> (copy: Vec<VirtualParameterDescriptor>)
    ensures
        parameter_views(copy@) == parameter_views(parameters@),
{
    let mut copy: Vec<VirtualParameterDescriptor> = Vec::new();
    let mut index: usize = 0;
    while index < parameters.len()
        invariant
            index <= parameters@.len(),
            copy@.len() == index,
            forall|k: int| 0 <= k < index ==> #[trigger] copy@[k]@ == parameters@[k]@,
        decreases parameters.len() - index,
    {
        let parameter = parameters[index].clone();
        copy.push(parameter);
        index += 1;
    }
    assert(parameter_views(copy@) =~= parameter_views(parameters@));
    copy
}

impl Clone for VirtualInstrumentDescriptor {
    fn clone(&self) -> (copy: Self)
        ensures
            copy@ == self@,
    {
        proof {
            use_type_invariant(self);
        }
        VirtualInstrumentDescriptor {
            id: self.id,
            name: self.name.clone(),
            parameters: clone_parameters(&self.parameters),
        }
    }
}

impl VirtualInstrumentDescriptor {
    #[verifier::type_invariant]
    spec fn parameters_distinct(self) -> bool {
        parameter_ids_distinct(parameter_views(self.parameters@))
    }

    /// A descriptor; refused when two parameters share an identifier, naming the first repeat.
    pub fn new(id: VirtualInstrumentId, name: String, parameters: Vec<VirtualParameterDescriptor>) -> (result: Result<
        Self,
        VirtualInstrumentSchemaError,
    >)
        ensures
            result is Ok <==> parameter_ids_distinct(parameter_views(parameters@)),
            result matches Ok(descriptor) ==> descriptor@ == (InstrumentDescriptorView {
                id,
                name: name@,
                parameters: parameter_views(parameters@),
            }),
            result matches Err(error) ==> error == (VirtualInstrumentSchemaError::DuplicateParameterId {
                instrument: id,
                parameter: parameter_views(parameters@)[first_parameter_repeat(parameter_views(parameters@))].id,
            }),
    {
        let ghost views = parameter_views(parameters@);
        let mut index: usize = 0;
        while index < parameters.len()
            invariant
                index <= parameters@.len(),
                views == parameter_views(parameters@),
                forall|k: int| 0 <= k < index ==> !repeats_earlier_parameter(views, k),
            decreases parameters.len() - index,
        {
            let mut earlier: usize = 0;
            while earlier < index
                invariant
                    earlier <= index < parameters@.len(),
                    views == parameter_views(parameters@),
                    forall|k: int| 0 <= k < index ==> !repeats_earlier_parameter(views, k),
                    forall|i: int| 0 <= i < earlier ==> views[i].id != views[index as int].id,
                decreases index - earlier,
            {
                if parameters[earlier].id() == parameters[index].id() {
                    assert(views[earlier as int] == parameters@[earlier as int]@);
                    assert(views[index as int] == parameters@[index as int]@);
                    assert(repeats_earlier_parameter(views, index as int));
                    assert(is_first_parameter_repeat(views, index as int));
                    proof {
                        lemma_first_parameter_repeat(views, index as int);
                    }
                    return Err(
                        VirtualInstrumentSchemaError::DuplicateParameterId {
                            instrument: id,
                            parameter: parameters[index].id(),
                        },
                    );
                }
                earlier += 1;
            }
            index += 1;
        }
        assert forall|i: int, j: int| 0 <= i < j < views.len() implies views[i].id != views[j].id by {
            assert(!repeats_earlier_parameter(views, j));
        }
        Ok(VirtualInstrumentDescriptor { id, name, parameters })
    }

    pub fn id(&self) -> (id: VirtualInstrumentId)
        ensures
            id == self@.id,
    {
        self.id
    }

    pub fn name(&self) -> (name: &str)
        ensures
            name@ == self@.name,
    {
        self.name.as_str()
    }

    pub fn parameters(&self) -> (parameters: &[VirtualParameterDescriptor])
        ensures
            parameter_views(parameters@) == self@.parameters,
            parameter_ids_distinct(self@.parameters),
    {
        proof {
            use_type_invariant(self);
        }
        self.parameters.as_slice()
    }

    /// The parameter with the given identifier, if the instrument has one.
    pub fn parameter_by_id(&self, parameter: VirtualParameterId) -> (found: Option<&VirtualParameterDescriptor>)
        ensures
            match found {
                Some(descriptor) => exists|index: int|
                    0 <= index < self@.parameters.len() && self@.parameters[index] == descriptor@
                        && descriptor@.id == parameter,
                None => forall|index: int|
                    0 <= index < self@.parameters.len() ==> self@.parameters[index].id != parameter,
            },
    {
        let mut index: usize = 0;
        while index < self.parameters.len()
            invariant
                index <= self.parameters@.len(),
                self@.parameters == parameter_views(self.parameters@),
                forall|k: int| 0 <= k < index ==> self@.parameters[k].id != parameter,
            decreases self.parameters.len() - index,
        {
            if self.parameters[index].id() == parameter {
                assert(self@.parameters[index as int] == self.parameters@[index as int]@);
                return Some(&self.parameters[index]);
            }
            index += 1;
        }
        None
    }
}

} // verus!

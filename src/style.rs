//! The element style record: a flat set of optional layout properties, each
//! read from one entry of a JSON object by the rule of its kind.
use vstd::prelude::*;
use crate::text::same_text;
use crate::length::{
    Length, LengthModel, UnitError, decode_value, deserialize, encode_text, option_view, serialize,
};
use crate::json::{
    JsonField, lookup, lookup_from, find, json_error_text, json_object_of, read_object,
};

verus! {

/// The main axis along which children are laid out.
#[derive(Debug, Clone, Copy, PartialEq, Eq)]
pub enum FlexDirection {
    Row,
    RowReverse,
    Column,
    ColumnReverse,
}

impl FlexDirection {
    /// The value that a word of the vocabulary names.
    pub open spec fn spec_from_word(s: Seq<char>) -> Option<Self> {
        if s == "row"@ {
            Some(FlexDirection::Row)
        } else if s == "row-reverse"@ {
            Some(FlexDirection::RowReverse)
        } else if s == "column"@ {
            Some(FlexDirection::Column)
        } else if s == "column-reverse"@ {
            Some(FlexDirection::ColumnReverse)
        } else {
            None
        }
    }

    /// Reads a word of the vocabulary.
    pub fn from_word(s: &str) -> (r: Option<Self>)
        ensures
            r == Self::spec_from_word(s@),
    {
        if same_text(s, "row") {
            Some(FlexDirection::Row)
        } else if same_text(s, "row-reverse") {
            Some(FlexDirection::RowReverse)
        } else if same_text(s, "column") {
            Some(FlexDirection::Column)
        } else if same_text(s, "column-reverse") {
            Some(FlexDirection::ColumnReverse)
        } else {
            None
        }
    }

    /// The word of the vocabulary that names this value.
    pub open spec fn spec_word(self) -> Seq<char> {
        match self {
            FlexDirection::Row => "row"@,
            FlexDirection::RowReverse => "row-reverse"@,
            FlexDirection::Column => "column"@,
            FlexDirection::ColumnReverse => "column-reverse"@,
        }
    }

    /// The word that names this value; reading it back gives the value.
    pub fn word(&self) -> (r: &'static str)
        ensures
            r@ == self.spec_word(),
            Self::spec_from_word(r@) == Some(*self),
    {
        proof {
            reveal_strlit("row");
            reveal_strlit("row-reverse");
            reveal_strlit("column");
            reveal_strlit("column-reverse");
            assert("row"@.len() != "row-reverse"@.len());
            assert("row"@.len() != "column"@.len());
            assert("row"@.len() != "column-reverse"@.len());
            assert("row-reverse"@.len() != "column"@.len());
            assert("row-reverse"@.len() != "column-reverse"@.len());
            assert("column"@.len() != "column-reverse"@.len());
        }
        match self {
            FlexDirection::Row => "row",
            FlexDirection::RowReverse => "row-reverse",
            FlexDirection::Column => "column",
            FlexDirection::ColumnReverse => "column-reverse",
        }
    }

    /// The word for a value, if there is one.
    pub open spec fn spec_word_of(o: Option<Self>) -> Option<Seq<char>> {
        match o {
            Some(x) => Some(x.spec_word()),
            None => None,
        }
    }

    /// What an entry decodes to: nothing when absent or null, the named
    /// value for a word of the vocabulary, an error otherwise.
    pub open spec fn spec_entry(v: Option<JsonField>) -> Result<Option<Self>, FieldError> {
        match v {
            None => Ok(None),
            Some(JsonField::Null) => Ok(None),
            Some(JsonField::Text(s)) => match Self::spec_from_word(s@) {
                Some(x) => Ok(Some(x)),
                None => Err(FieldError::UnknownWord),
            },
            Some(_) => Err(FieldError::NotAString),
        }
    }

    /// Reads the entry under `name`.
    pub fn read_entry(f: &Vec<(String, JsonField)>, name: &str) -> (r: Result<Option<Self>, FieldError>)
        ensures
            r == Self::spec_entry(lookup(f@, name@)),
    {
        match find(f, name) {
            None => Ok(None),
            Some(i) => match &f[i].1 {
                JsonField::Null => Ok(None),
                JsonField::Text(s) => match Self::from_word(s.as_str()) {
                    Some(x) => Ok(Some(x)),
                    None => Err(FieldError::UnknownWord),
                },
                _ => Err(FieldError::NotAString),
            },
        }
    }
}

/// How children are distributed along the main axis.
#[derive(Debug, Clone, Copy, PartialEq, Eq)]
pub enum Justify {
    FlexStart,
    Center,
    FlexEnd,
    SpaceBetween,
    SpaceAround,
    SpaceEvenly,
}

impl Justify {
    /// The value that a word of the vocabulary names.
    pub open spec fn spec_from_word(s: Seq<char>) -> Option<Self> {
        if s == "flex-start"@ {
            Some(Justify::FlexStart)
        } else if s == "center"@ {
            Some(Justify::Center)
        } else if s == "flex-end"@ {
            Some(Justify::FlexEnd)
        } else if s == "space-between"@ {
            Some(Justify::SpaceBetween)
        } else if s == "space-around"@ {
            Some(Justify::SpaceAround)
        } else if s == "space-evenly"@ {
            Some(Justify::SpaceEvenly)
        } else {
            None
        }
    }

    /// Reads a word of the vocabulary.
    pub fn from_word(s: &str) -> (r: Option<Self>)
        ensures
            r == Self::spec_from_word(s@),
    {
        if same_text(s, "flex-start") {
            Some(Justify::FlexStart)
        } else if same_text(s, "center") {
            Some(Justify::Center)
        } else if same_text(s, "flex-end") {
            Some(Justify::FlexEnd)
        } else if same_text(s, "space-between") {
            Some(Justify::SpaceBetween)
        } else if same_text(s, "space-around") {
            Some(Justify::SpaceAround)
        } else if same_text(s, "space-evenly") {
            Some(Justify::SpaceEvenly)
        } else {
            None
        }
    }

    /// The word of the vocabulary that names this value.
    pub open spec fn spec_word(self) -> Seq<char> {
        match self {
            Justify::FlexStart => "flex-start"@,
            Justify::Center => "center"@,
            Justify::FlexEnd => "flex-end"@,
            Justify::SpaceBetween => "space-between"@,
            Justify::SpaceAround => "space-around"@,
            Justify::SpaceEvenly => "space-evenly"@,
        }
    }

    /// The word that names this value; reading it back gives the value.
    pub fn word(&self) -> (r: &'static str)
        ensures
            r@ == self.spec_word(),
            Self::spec_from_word(r@) == Some(*self),
    {
        proof {
            reveal_strlit("flex-start");
            reveal_strlit("center");
            reveal_strlit("flex-end");
            reveal_strlit("space-between");
            reveal_strlit("space-around");
            reveal_strlit("space-evenly");
            assert("flex-start"@.len() != "center"@.len());
            assert("flex-start"@.len() != "flex-end"@.len());
            assert("flex-start"@.len() != "space-between"@.len());
            assert("flex-start"@.len() != "space-around"@.len());
            assert("flex-start"@.len() != "space-evenly"@.len());
            assert("center"@.len() != "flex-end"@.len());
            assert("center"@.len() != "space-between"@.len());
            assert("center"@.len() != "space-around"@.len());
            assert("center"@.len() != "space-evenly"@.len());
            assert("flex-end"@.len() != "space-between"@.len());
            assert("flex-end"@.len() != "space-around"@.len());
            assert("flex-end"@.len() != "space-evenly"@.len());
            assert("space-between"@.len() != "space-around"@.len());
            assert("space-between"@.len() != "space-evenly"@.len());
            assert("space-around"@[6] != "space-evenly"@[6]);
        }
        match self {
            Justify::FlexStart => "flex-start",
            Justify::Center => "center",
            Justify::FlexEnd => "flex-end",
            Justify::SpaceBetween => "space-between",
            Justify::SpaceAround => "space-around",
            Justify::SpaceEvenly => "space-evenly",
        }
    }

    /// The word for a value, if there is one.
    pub open spec fn spec_word_of(o: Option<Self>) -> Option<Seq<char>> {
        match o {
            Some(x) => Some(x.spec_word()),
            None => None,
        }
    }

    /// What an entry decodes to: nothing when absent or null, the named
    /// value for a word of the vocabulary, an error otherwise.
    pub open spec fn spec_entry(v: Option<JsonField>) -> Result<Option<Self>, FieldError> {
        match v {
            None => Ok(None),
            Some(JsonField::Null) => Ok(None),
            Some(JsonField::Text(s)) => match Self::spec_from_word(s@) {
                Some(x) => Ok(Some(x)),
                None => Err(FieldError::UnknownWord),
            },
            Some(_) => Err(FieldError::NotAString),
        }
    }

    /// Reads the entry under `name`.
    pub fn read_entry(f: &Vec<(String, JsonField)>, name: &str) -> (r: Result<Option<Self>, FieldError>)
        ensures
            r == Self::spec_entry(lookup(f@, name@)),
    {
        match find(f, name) {
            None => Ok(None),
            Some(i) => match &f[i].1 {
                JsonField::Null => Ok(None),
                JsonField::Text(s) => match Self::from_word(s.as_str()) {
                    Some(x) => Ok(Some(x)),
                    None => Err(FieldError::UnknownWord),
                },
                _ => Err(FieldError::NotAString),
            },
        }
    }
}

/// Whether an element is placed in the flow or by its offsets.
#[derive(Debug, Clone, Copy, PartialEq, Eq)]
pub enum PositionType {
    Relative,
    Absolute,
}

impl PositionType {
    /// The value that a word of the vocabulary names.
    pub open spec fn spec_from_word(s: Seq<char>) -> Option<Self> {
        if s == "relative"@ {
            Some(PositionType::Relative)
        } else if s == "absolute"@ {
            Some(PositionType::Absolute)
        } else {
            None
        }
    }

    /// Reads a word of the vocabulary.
    pub fn from_word(s: &str) -> (r: Option<Self>)
        ensures
            r == Self::spec_from_word(s@),
    {
        if same_text(s, "relative") {
            Some(PositionType::Relative)
        } else if same_text(s, "absolute") {
            Some(PositionType::Absolute)
        } else {
            None
        }
    }

    /// The word of the vocabulary that names this value.
    pub open spec fn spec_word(self) -> Seq<char> {
        match self {
            PositionType::Relative => "relative"@,
            PositionType::Absolute => "absolute"@,
        }
    }

    /// The word that names this value; reading it back gives the value.
    pub fn word(&self) -> (r: &'static str)
        ensures
            r@ == self.spec_word(),
            Self::spec_from_word(r@) == Some(*self),
    {
        proof {
            reveal_strlit("relative");
            reveal_strlit("absolute");
            assert("relative"@[0] != "absolute"@[0]);
        }
        match self {
            PositionType::Relative => "relative",
            PositionType::Absolute => "absolute",
        }
    }

    /// The word for a value, if there is one.
    pub open spec fn spec_word_of(o: Option<Self>) -> Option<Seq<char>> {
        match o {
            Some(x) => Some(x.spec_word()),
            None => None,
        }
    }

    /// What an entry decodes to: nothing when absent or null, the named
    /// value for a word of the vocabulary, an error otherwise.
    pub open spec fn spec_entry(v: Option<JsonField>) -> Result<Option<Self>, FieldError> {
        match v {
            None => Ok(None),
            Some(JsonField::Null) => Ok(None),
            Some(JsonField::Text(s)) => match Self::spec_from_word(s@) {
                Some(x) => Ok(Some(x)),
                None => Err(FieldError::UnknownWord),
            },
            Some(_) => Err(FieldError::NotAString),
        }
    }

    /// Reads the entry under `name`.
    pub fn read_entry(f: &Vec<(String, JsonField)>, name: &str) -> (r: Result<Option<Self>, FieldError>)
        ensures
            r == Self::spec_entry(lookup(f@, name@)),
    {
        match find(f, name) {
            None => Ok(None),
            Some(i) => match &f[i].1 {
                JsonField::Null => Ok(None),
                JsonField::Text(s) => match Self::from_word(s.as_str()) {
                    Some(x) => Ok(Some(x)),
                    None => Err(FieldError::UnknownWord),
                },
                _ => Err(FieldError::NotAString),
            },
        }
    }
}

/// How children, lines or the element itself are aligned on the cross axis.
#[derive(Debug, Clone, Copy, PartialEq, Eq)]
pub enum Align {
    Auto,
    FlexStart,
    Center,
    FlexEnd,
    Stretch,
    Baseline,
    SpaceBetween,
    SpaceAround,
}

impl Align {
    /// The value that a word of the vocabulary names.
    pub open spec fn spec_from_word(s: Seq<char>) -> Option<Self> {
        if s == "auto"@ {
            Some(Align::Auto)
        } else if s == "flex-start"@ {
            Some(Align::FlexStart)
        } else if s == "center"@ {
            Some(Align::Center)
        } else if s == "flex-end"@ {
            Some(Align::FlexEnd)
        } else if s == "stretch"@ {
            Some(Align::Stretch)
        } else if s == "baseline"@ {
            Some(Align::Baseline)
        } else if s == "space-between"@ {
            Some(Align::SpaceBetween)
        } else if s == "space-around"@ {
            Some(Align::SpaceAround)
        } else {
            None
        }
    }

    /// Reads a word of the vocabulary.
    pub fn from_word(s: &str) -> (r: Option<Self>)
        ensures
            r == Self::spec_from_word(s@),
    {
        if same_text(s, "auto") {
            Some(Align::Auto)
        } else if same_text(s, "flex-start") {
            Some(Align::FlexStart)
        } else if same_text(s, "center") {
            Some(Align::Center)
        } else if same_text(s, "flex-end") {
            Some(Align::FlexEnd)
        } else if same_text(s, "stretch") {
            Some(Align::Stretch)
        } else if same_text(s, "baseline") {
            Some(Align::Baseline)
        } else if same_text(s, "space-between") {
            Some(Align::SpaceBetween)
        } else if same_text(s, "space-around") {
            Some(Align::SpaceAround)
        } else {
            None
        }
    }

    /// The word of the vocabulary that names this value.
    pub open spec fn spec_word(self) -> Seq<char> {
        match self {
            Align::Auto => "auto"@,
            Align::FlexStart => "flex-start"@,
            Align::Center => "center"@,
            Align::FlexEnd => "flex-end"@,
            Align::Stretch => "stretch"@,
            Align::Baseline => "baseline"@,
            Align::SpaceBetween => "space-between"@,
            Align::SpaceAround => "space-around"@,
        }
    }

    /// The word that names this value; reading it back gives the value.
    pub fn word(&self) -> (r: &'static str)
        ensures
            r@ == self.spec_word(),
            Self::spec_from_word(r@) == Some(*self),
    {
        proof {
            reveal_strlit("auto");
            reveal_strlit("flex-start");
            reveal_strlit("center");
            reveal_strlit("flex-end");
            reveal_strlit("stretch");
            reveal_strlit("baseline");
            reveal_strlit("space-between");
            reveal_strlit("space-around");
            assert("auto"@.len() != "flex-start"@.len());
            assert("auto"@.len() != "center"@.len());
            assert("auto"@.len() != "flex-end"@.len());
            assert("auto"@.len() != "stretch"@.len());
            assert("auto"@.len() != "baseline"@.len());
            assert("auto"@.len() != "space-between"@.len());
            assert("auto"@.len() != "space-around"@.len());
            assert("flex-start"@.len() != "center"@.len());
            assert("flex-start"@.len() != "flex-end"@.len());
            assert("flex-start"@.len() != "stretch"@.len());
            assert("flex-start"@.len() != "baseline"@.len());
            assert("flex-start"@.len() != "space-between"@.len());
            assert("flex-start"@.len() != "space-around"@.len());
            assert("center"@.len() != "flex-end"@.len());
            assert("center"@.len() != "stretch"@.len());
            assert("center"@.len() != "baseline"@.len());
            assert("center"@.len() != "space-between"@.len());
            assert("center"@.len() != "space-around"@.len());
            assert("flex-end"@.len() != "stretch"@.len());
            assert("flex-end"@[0] != "baseline"@[0]);
            assert("flex-end"@.len() != "space-between"@.len());
            assert("flex-end"@.len() != "space-around"@.len());
            assert("stretch"@.len() != "baseline"@.len());
            assert("stretch"@.len() != "space-between"@.len());
            assert("stretch"@.len() != "space-around"@.len());
            assert("baseline"@.len() != "space-between"@.len());
            assert("baseline"@.len() != "space-around"@.len());
            assert("space-between"@.len() != "space-around"@.len());
        }
        match self {
            Align::Auto => "auto",
            Align::FlexStart => "flex-start",
            Align::Center => "center",
            Align::FlexEnd => "flex-end",
            Align::Stretch => "stretch",
            Align::Baseline => "baseline",
            Align::SpaceBetween => "space-between",
            Align::SpaceAround => "space-around",
        }
    }

    /// The word for a value, if there is one.
    pub open spec fn spec_word_of(o: Option<Self>) -> Option<Seq<char>> {
        match o {
            Some(x) => Some(x.spec_word()),
            None => None,
        }
    }

    /// What an entry decodes to: nothing when absent or null, the named
    /// value for a word of the vocabulary, an error otherwise.
    pub open spec fn spec_entry(v: Option<JsonField>) -> Result<Option<Self>, FieldError> {
        match v {
            None => Ok(None),
            Some(JsonField::Null) => Ok(None),
            Some(JsonField::Text(s)) => match Self::spec_from_word(s@) {
                Some(x) => Ok(Some(x)),
                None => Err(FieldError::UnknownWord),
            },
            Some(_) => Err(FieldError::NotAString),
        }
    }

    /// Reads the entry under `name`.
    pub fn read_entry(f: &Vec<(String, JsonField)>, name: &str) -> (r: Result<Option<Self>, FieldError>)
        ensures
            r == Self::spec_entry(lookup(f@, name@)),
    {
        match find(f, name) {
            None => Ok(None),
            Some(i) => match &f[i].1 {
                JsonField::Null => Ok(None),
                JsonField::Text(s) => match Self::from_word(s.as_str()) {
                    Some(x) => Ok(Some(x)),
                    None => Err(FieldError::UnknownWord),
                },
                _ => Err(FieldError::NotAString),
            },
        }
    }
}

/// Whether children wrap onto further lines.
#[derive(Debug, Clone, Copy, PartialEq, Eq)]
pub enum Wrap {
    NoWrap,
    Wrap,
    WrapReverse,
}

impl Wrap {
    /// The value that a word of the vocabulary names.
    pub open spec fn spec_from_word(s: Seq<char>) -> Option<Self> {
        if s == "nowrap"@ {
            Some(Wrap::NoWrap)
        } else if s == "wrap"@ {
            Some(Wrap::Wrap)
        } else if s == "wrap-reverse"@ {
            Some(Wrap::WrapReverse)
        } else {
            None
        }
    }

    /// Reads a word of the vocabulary.
    pub fn from_word(s: &str) -> (r: Option<Self>)
        ensures
            r == Self::spec_from_word(s@),
    {
        if same_text(s, "nowrap") {
            Some(Wrap::NoWrap)
        } else if same_text(s, "wrap") {
            Some(Wrap::Wrap)
        } else if same_text(s, "wrap-reverse") {
            Some(Wrap::WrapReverse)
        } else {
            None
        }
    }

    /// The word of the vocabulary that names this value.
    pub open spec fn spec_word(self) -> Seq<char> {
        match self {
            Wrap::NoWrap => "nowrap"@,
            Wrap::Wrap => "wrap"@,
            Wrap::WrapReverse => "wrap-reverse"@,
        }
    }

    /// The word that names this value; reading it back gives the value.
    pub fn word(&self) -> (r: &'static str)
        ensures
            r@ == self.spec_word(),
            Self::spec_from_word(r@) == Some(*self),
    {
        proof {
            reveal_strlit("nowrap");
            reveal_strlit("wrap");
            reveal_strlit("wrap-reverse");
            assert("nowrap"@.len() != "wrap"@.len());
            assert("nowrap"@.len() != "wrap-reverse"@.len());
            assert("wrap"@.len() != "wrap-reverse"@.len());
        }
        match self {
            Wrap::NoWrap => "nowrap",
            Wrap::Wrap => "wrap",
            Wrap::WrapReverse => "wrap-reverse",
        }
    }

    /// The word for a value, if there is one.
    pub open spec fn spec_word_of(o: Option<Self>) -> Option<Seq<char>> {
        match o {
            Some(x) => Some(x.spec_word()),
            None => None,
        }
    }

    /// What an entry decodes to: nothing when absent or null, the named
    /// value for a word of the vocabulary, an error otherwise.
    pub open spec fn spec_entry(v: Option<JsonField>) -> Result<Option<Self>, FieldError> {
        match v {
            None => Ok(None),
            Some(JsonField::Null) => Ok(None),
            Some(JsonField::Text(s)) => match Self::spec_from_word(s@) {
                Some(x) => Ok(Some(x)),
                None => Err(FieldError::UnknownWord),
            },
            Some(_) => Err(FieldError::NotAString),
        }
    }

    /// Reads the entry under `name`.
    pub fn read_entry(f: &Vec<(String, JsonField)>, name: &str) -> (r: Result<Option<Self>, FieldError>)
        ensures
            r == Self::spec_entry(lookup(f@, name@)),
    {
        match find(f, name) {
            None => Ok(None),
            Some(i) => match &f[i].1 {
                JsonField::Null => Ok(None),
                JsonField::Text(s) => match Self::from_word(s.as_str()) {
                    Some(x) => Ok(Some(x)),
                    None => Err(FieldError::UnknownWord),
                },
                _ => Err(FieldError::NotAString),
            },
        }
    }
}

/// Whether the element takes part in layout (`none` gives `Hidden`).
#[derive(Debug, Clone, Copy, PartialEq, Eq)]
pub enum Display {
    Flex,
    Hidden,
}

impl Display {
    /// The value that a word of the vocabulary names.
    pub open spec fn spec_from_word(s: Seq<char>) -> Option<Self> {
        if s == "flex"@ {
            Some(Display::Flex)
        } else if s == "none"@ {
            Some(Display::Hidden)
        } else {
            None
        }
    }

    /// Reads a word of the vocabulary.
    pub fn from_word(s: &str) -> (r: Option<Self>)
        ensures
            r == Self::spec_from_word(s@),
    {
        if same_text(s, "flex") {
            Some(Display::Flex)
        } else if same_text(s, "none") {
            Some(Display::Hidden)
        } else {
            None
        }
    }

    /// The word of the vocabulary that names this value.
    pub open spec fn spec_word(self) -> Seq<char> {
        match self {
            Display::Flex => "flex"@,
            Display::Hidden => "none"@,
        }
    }

    /// The word that names this value; reading it back gives the value.
    pub fn word(&self) -> (r: &'static str)
        ensures
            r@ == self.spec_word(),
            Self::spec_from_word(r@) == Some(*self),
    {
        proof {
            reveal_strlit("flex");
            reveal_strlit("none");
            assert("flex"@[0] != "none"@[0]);
        }
        match self {
            Display::Flex => "flex",
            Display::Hidden => "none",
        }
    }

    /// The word for a value, if there is one.
    pub open spec fn spec_word_of(o: Option<Self>) -> Option<Seq<char>> {
        match o {
            Some(x) => Some(x.spec_word()),
            None => None,
        }
    }

    /// What an entry decodes to: nothing when absent or null, the named
    /// value for a word of the vocabulary, an error otherwise.
    pub open spec fn spec_entry(v: Option<JsonField>) -> Result<Option<Self>, FieldError> {
        match v {
            None => Ok(None),
            Some(JsonField::Null) => Ok(None),
            Some(JsonField::Text(s)) => match Self::spec_from_word(s@) {
                Some(x) => Ok(Some(x)),
                None => Err(FieldError::UnknownWord),
            },
            Some(_) => Err(FieldError::NotAString),
        }
    }

    /// Reads the entry under `name`.
    pub fn read_entry(f: &Vec<(String, JsonField)>, name: &str) -> (r: Result<Option<Self>, FieldError>)
        ensures
            r == Self::spec_entry(lookup(f@, name@)),
    {
        match find(f, name) {
            None => Ok(None),
            Some(i) => match &f[i].1 {
                JsonField::Null => Ok(None),
                JsonField::Text(s) => match Self::from_word(s.as_str()) {
                    Some(x) => Ok(Some(x)),
                    None => Err(FieldError::UnknownWord),
                },
                _ => Err(FieldError::NotAString),
            },
        }
    }
}

/// What happens to content that does not fit.
#[derive(Debug, Clone, Copy, PartialEq, Eq)]
pub enum Overflow {
    Visible,
    Hidden,
    Scroll,
}

impl Overflow {
    /// The value that a word of the vocabulary names.
    pub open spec fn spec_from_word(s: Seq<char>) -> Option<Self> {
        if s == "visible"@ {
            Some(Overflow::Visible)
        } else if s == "hidden"@ {
            Some(Overflow::Hidden)
        } else if s == "scroll"@ {
            Some(Overflow::Scroll)
        } else {
            None
        }
    }

    /// Reads a word of the vocabulary.
    pub fn from_word(s: &str) -> (r: Option<Self>)
        ensures
            r == Self::spec_from_word(s@),
    {
        if same_text(s, "visible") {
            Some(Overflow::Visible)
        } else if same_text(s, "hidden") {
            Some(Overflow::Hidden)
        } else if same_text(s, "scroll") {
            Some(Overflow::Scroll)
        } else {
            None
        }
    }

    /// The word of the vocabulary that names this value.
    pub open spec fn spec_word(self) -> Seq<char> {
        match self {
            Overflow::Visible => "visible"@,
            Overflow::Hidden => "hidden"@,
            Overflow::Scroll => "scroll"@,
        }
    }

    /// The word that names this value; reading it back gives the value.
    pub fn word(&self) -> (r: &'static str)
        ensures
            r@ == self.spec_word(),
            Self::spec_from_word(r@) == Some(*self),
    {
        proof {
            reveal_strlit("visible");
            reveal_strlit("hidden");
            reveal_strlit("scroll");
            assert("visible"@.len() != "hidden"@.len());
            assert("visible"@.len() != "scroll"@.len());
            assert("hidden"@[0] != "scroll"@[0]);
        }
        match self {
            Overflow::Visible => "visible",
            Overflow::Hidden => "hidden",
            Overflow::Scroll => "scroll",
        }
    }

    /// The word for a value, if there is one.
    pub open spec fn spec_word_of(o: Option<Self>) -> Option<Seq<char>> {
        match o {
            Some(x) => Some(x.spec_word()),
            None => None,
        }
    }

    /// What an entry decodes to: nothing when absent or null, the named
    /// value for a word of the vocabulary, an error otherwise.
    pub open spec fn spec_entry(v: Option<JsonField>) -> Result<Option<Self>, FieldError> {
        match v {
            None => Ok(None),
            Some(JsonField::Null) => Ok(None),
            Some(JsonField::Text(s)) => match Self::spec_from_word(s@) {
                Some(x) => Ok(Some(x)),
                None => Err(FieldError::UnknownWord),
            },
            Some(_) => Err(FieldError::NotAString),
        }
    }

    /// Reads the entry under `name`.
    pub fn read_entry(f: &Vec<(String, JsonField)>, name: &str) -> (r: Result<Option<Self>, FieldError>)
        ensures
            r == Self::spec_entry(lookup(f@, name@)),
    {
        match find(f, name) {
            None => Ok(None),
            Some(i) => match &f[i].1 {
                JsonField::Null => Ok(None),
                JsonField::Text(s) => match Self::from_word(s.as_str()) {
                    Some(x) => Ok(Some(x)),
                    None => Err(FieldError::UnknownWord),
                },
                _ => Err(FieldError::NotAString),
            },
        }
    }
}

/// Why one property of a style object was refused.
#[derive(Debug, Clone, Copy, PartialEq, Eq)]
pub enum FieldError {
    /// A property with a fixed vocabulary holds something other than a string.
    NotAString,
    /// A property with a fixed vocabulary holds a word outside it.
    UnknownWord,
    /// A numeric property holds something other than a number.
    NotANumber,
    /// A length property holds a string that is not a length.
    BadLength(UnitError),
}

/// Why a style object could not be read.
#[derive(Debug, Clone, PartialEq, Eq)]
pub enum StyleError {
    /// The text is not well-formed JSON; the description says where.
    Syntax(String),
    /// The text is JSON but not an object.
    NotAnObject,
    /// The named property holds a value it cannot take.
    InvalidField { name: String, problem: FieldError },
}

/// What a numeric entry decodes to: nothing when absent or null, the number
/// itself, an error for any other value.
pub open spec fn number_entry(v: Option<JsonField>) -> Result<Option<serde_json::Number>, FieldError> {
    match v {
        None => Ok(None),
        Some(JsonField::Null) => Ok(None),
        Some(JsonField::Number(n)) => Ok(Some(n)),
        Some(_) => Err(FieldError::NotANumber),
    }
}

/// What a length entry decodes to: the decoded length for a string, an error
/// for a string that is no length, and nothing for any other value or none.
pub open spec fn length_entry(v: Option<JsonField>) -> Result<Option<LengthModel>, FieldError> {
    match v {
        Some(x) => match decode_value(x) {
            Ok(u) => Ok(u),
            Err(e) => Err(FieldError::BadLength(e)),
        },
        None => Ok(None),
    }
}

/// A length property that is absent, or holds anything but a string, decodes
/// to nothing and is never an error.
pub proof fn law_non_text_length_is_absent(v: Option<JsonField>)
    requires
        !(v matches Some(JsonField::Text(_))),
    ensures
        length_entry(v) == Ok::<Option<LengthModel>, FieldError>(None),
{
}

/// The background entry: any value but null is kept as it is.
pub open spec fn background_entry(v: Option<JsonField>) -> Option<JsonField> {
    match v {
        None => None,
        Some(JsonField::Null) => None,
        Some(x) => Some(x),
    }
}

fn copy_field(v: &JsonField) -> (r: JsonField)
    ensures
        r == *v,
{
    match v {
        JsonField::Null => JsonField::Null,
        JsonField::Bool(b) => JsonField::Bool(*b),
        JsonField::Number(n) => JsonField::Number(n.clone()),
        JsonField::Text(s) => JsonField::Text(s.clone()),
        JsonField::Nested(x) => JsonField::Nested(x.clone()),
    }
}

/// Reads the numeric entry under `name`.
pub fn read_number(f: &Vec<(String, JsonField)>, name: &str) -> (r: Result<Option<serde_json::Number>, FieldError>)
    ensures
        r == number_entry(lookup(f@, name@)),
{
    match find(f, name) {
        None => Ok(None),
        Some(i) => match &f[i].1 {
            JsonField::Null => Ok(None),
            JsonField::Number(n) => Ok(Some(n.clone())),
            _ => Err(FieldError::NotANumber),
        },
    }
}

/// Reads the length entry under `name`.
pub fn read_length(f: &Vec<(String, JsonField)>, name: &str) -> (r: Result<Option<Length>, FieldError>)
    ensures
        match r {
            Ok(u) => length_entry(lookup(f@, name@)) == Ok::<Option<LengthModel>, FieldError>(option_view(u)),
            Err(e) => length_entry(lookup(f@, name@)) == Err::<Option<LengthModel>, FieldError>(e),
        },
{
    match find(f, name) {
        None => Ok(None),
        Some(i) => match deserialize(&f[i].1) {
            Ok(u) => Ok(u),
            Err(e) => Err(FieldError::BadLength(e)),
        },
    }
}

/// Reads the background entry.
pub fn read_background(f: &Vec<(String, JsonField)>) -> (r: Option<JsonField>)
    ensures
        r == background_entry(lookup(f@, "background"@)),
{
    match find(f, "background") {
        None => None,
        Some(i) => match &f[i].1 {
            JsonField::Null => None,
            x => Some(copy_field(x)),
        },
    }
}

/// The style of one element. Every property is optional: absence means the
/// layout engine's default.
#[derive(Debug, Clone, PartialEq)]
pub struct ElementStyle {
    pub flex_direction: Option<FlexDirection>,
    pub justify_content: Option<Justify>,
    pub position: Option<PositionType>,
    pub align_content: Option<Align>,
    pub align_items: Option<Align>,
    pub align_self: Option<Align>,
    pub flex_wrap: Option<Wrap>,
    pub display: Option<Display>,
    pub overflow: Option<Overflow>,
    pub aspect_ratio: Option<serde_json::Number>,
    pub border_bottom: Option<serde_json::Number>,
    pub border_right: Option<serde_json::Number>,
    pub border_left: Option<serde_json::Number>,
    pub border_top: Option<serde_json::Number>,
    pub border_start: Option<serde_json::Number>,
    pub border_end: Option<serde_json::Number>,
    pub border: Option<serde_json::Number>,
    pub flex_shrink: Option<serde_json::Number>,
    pub flex_grow: Option<serde_json::Number>,
    pub flex: Option<serde_json::Number>,
    pub bottom: Option<Length>,
    pub end: Option<Length>,
    pub flex_basis: Option<Length>,
    pub height: Option<Length>,
    pub left: Option<Length>,
    pub margin: Option<Length>,
    pub margin_bottom: Option<Length>,
    pub margin_end: Option<Length>,
    pub margin_horizontal: Option<Length>,
    pub margin_left: Option<Length>,
    pub margin_right: Option<Length>,
    pub margin_start: Option<Length>,
    pub margin_top: Option<Length>,
    pub margin_vertical: Option<Length>,
    pub max_height: Option<Length>,
    pub max_width: Option<Length>,
    pub min_height: Option<Length>,
    pub min_width: Option<Length>,
    pub padding: Option<Length>,
    pub padding_bottom: Option<Length>,
    pub padding_end: Option<Length>,
    pub padding_horizontal: Option<Length>,
    pub padding_left: Option<Length>,
    pub padding_right: Option<Length>,
    pub padding_start: Option<Length>,
    pub padding_top: Option<Length>,
    pub padding_vertical: Option<Length>,
    pub right: Option<Length>,
    pub start: Option<Length>,
    pub top: Option<Length>,
    pub width: Option<Length>,
    pub background: Option<JsonField>,
}

/// The numeric properties.
pub open spec fn is_number_name(name: Seq<char>) -> bool {
    ||| name == "aspect_ratio"@
    ||| name == "border_bottom"@
    ||| name == "border_right"@
    ||| name == "border_left"@
    ||| name == "border_top"@
    ||| name == "border_start"@
    ||| name == "border_end"@
    ||| name == "border"@
    ||| name == "flex_shrink"@
    ||| name == "flex_grow"@
    ||| name == "flex"@
}

/// The length properties.
pub open spec fn is_length_name(name: Seq<char>) -> bool {
    ||| name == "bottom"@
    ||| name == "end"@
    ||| name == "flex_basis"@
    ||| name == "height"@
    ||| name == "left"@
    ||| name == "margin"@
    ||| name == "margin_bottom"@
    ||| name == "margin_end"@
    ||| name == "margin_horizontal"@
    ||| name == "margin_left"@
    ||| name == "margin_right"@
    ||| name == "margin_start"@
    ||| name == "margin_top"@
    ||| name == "margin_vertical"@
    ||| name == "max_height"@
    ||| name == "max_width"@
    ||| name == "min_height"@
    ||| name == "min_width"@
    ||| name == "padding"@
    ||| name == "padding_bottom"@
    ||| name == "padding_end"@
    ||| name == "padding_horizontal"@
    ||| name == "padding_left"@
    ||| name == "padding_right"@
    ||| name == "padding_start"@
    ||| name == "padding_top"@
    ||| name == "padding_vertical"@
    ||| name == "right"@
    ||| name == "start"@
    ||| name == "top"@
    ||| name == "width"@
}

/// Every property of the object decodes.
pub open spec fn record_ok(f: Seq<(String, JsonField)>) -> bool {
    &&& FlexDirection::spec_entry(lookup(f, "flex_direction"@)) is Ok
    &&& Justify::spec_entry(lookup(f, "justify_content"@)) is Ok
    &&& PositionType::spec_entry(lookup(f, "position"@)) is Ok
    &&& Align::spec_entry(lookup(f, "align_content"@)) is Ok
    &&& Align::spec_entry(lookup(f, "align_items"@)) is Ok
    &&& Align::spec_entry(lookup(f, "align_self"@)) is Ok
    &&& Wrap::spec_entry(lookup(f, "flex_wrap"@)) is Ok
    &&& Display::spec_entry(lookup(f, "display"@)) is Ok
    &&& Overflow::spec_entry(lookup(f, "overflow"@)) is Ok
    &&& number_entry(lookup(f, "aspect_ratio"@)) is Ok
    &&& number_entry(lookup(f, "border_bottom"@)) is Ok
    &&& number_entry(lookup(f, "border_right"@)) is Ok
    &&& number_entry(lookup(f, "border_left"@)) is Ok
    &&& number_entry(lookup(f, "border_top"@)) is Ok
    &&& number_entry(lookup(f, "border_start"@)) is Ok
    &&& number_entry(lookup(f, "border_end"@)) is Ok
    &&& number_entry(lookup(f, "border"@)) is Ok
    &&& number_entry(lookup(f, "flex_shrink"@)) is Ok
    &&& number_entry(lookup(f, "flex_grow"@)) is Ok
    &&& number_entry(lookup(f, "flex"@)) is Ok
    &&& length_entry(lookup(f, "bottom"@)) is Ok
    &&& length_entry(lookup(f, "end"@)) is Ok
    &&& length_entry(lookup(f, "flex_basis"@)) is Ok
    &&& length_entry(lookup(f, "height"@)) is Ok
    &&& length_entry(lookup(f, "left"@)) is Ok
    &&& length_entry(lookup(f, "margin"@)) is Ok
    &&& length_entry(lookup(f, "margin_bottom"@)) is Ok
    &&& length_entry(lookup(f, "margin_end"@)) is Ok
    &&& length_entry(lookup(f, "margin_horizontal"@)) is Ok
    &&& length_entry(lookup(f, "margin_left"@)) is Ok
    &&& length_entry(lookup(f, "margin_right"@)) is Ok
    &&& length_entry(lookup(f, "margin_start"@)) is Ok
    &&& length_entry(lookup(f, "margin_top"@)) is Ok
    &&& length_entry(lookup(f, "margin_vertical"@)) is Ok
    &&& length_entry(lookup(f, "max_height"@)) is Ok
    &&& length_entry(lookup(f, "max_width"@)) is Ok
    &&& length_entry(lookup(f, "min_height"@)) is Ok
    &&& length_entry(lookup(f, "min_width"@)) is Ok
    &&& length_entry(lookup(f, "padding"@)) is Ok
    &&& length_entry(lookup(f, "padding_bottom"@)) is Ok
    &&& length_entry(lookup(f, "padding_end"@)) is Ok
    &&& length_entry(lookup(f, "padding_horizontal"@)) is Ok
    &&& length_entry(lookup(f, "padding_left"@)) is Ok
    &&& length_entry(lookup(f, "padding_right"@)) is Ok
    &&& length_entry(lookup(f, "padding_start"@)) is Ok
    &&& length_entry(lookup(f, "padding_top"@)) is Ok
    &&& length_entry(lookup(f, "padding_vertical"@)) is Ok
    &&& length_entry(lookup(f, "right"@)) is Ok
    &&& length_entry(lookup(f, "start"@)) is Ok
    &&& length_entry(lookup(f, "top"@)) is Ok
    &&& length_entry(lookup(f, "width"@)) is Ok
}

/// Each property of the record is what the entry of that name decodes to.
pub open spec fn record_matches(s: ElementStyle, f: Seq<(String, JsonField)>) -> bool {
    &&& FlexDirection::spec_entry(lookup(f, "flex_direction"@)) == Ok::<Option<FlexDirection>, FieldError>(s.flex_direction)
    &&& Justify::spec_entry(lookup(f, "justify_content"@)) == Ok::<Option<Justify>, FieldError>(s.justify_content)
    &&& PositionType::spec_entry(lookup(f, "position"@)) == Ok::<Option<PositionType>, FieldError>(s.position)
    &&& Align::spec_entry(lookup(f, "align_content"@)) == Ok::<Option<Align>, FieldError>(s.align_content)
    &&& Align::spec_entry(lookup(f, "align_items"@)) == Ok::<Option<Align>, FieldError>(s.align_items)
    &&& Align::spec_entry(lookup(f, "align_self"@)) == Ok::<Option<Align>, FieldError>(s.align_self)
    &&& Wrap::spec_entry(lookup(f, "flex_wrap"@)) == Ok::<Option<Wrap>, FieldError>(s.flex_wrap)
    &&& Display::spec_entry(lookup(f, "display"@)) == Ok::<Option<Display>, FieldError>(s.display)
    &&& Overflow::spec_entry(lookup(f, "overflow"@)) == Ok::<Option<Overflow>, FieldError>(s.overflow)
    &&& number_entry(lookup(f, "aspect_ratio"@)) == Ok::<Option<serde_json::Number>, FieldError>(s.aspect_ratio)
    &&& number_entry(lookup(f, "border_bottom"@)) == Ok::<Option<serde_json::Number>, FieldError>(s.border_bottom)
    &&& number_entry(lookup(f, "border_right"@)) == Ok::<Option<serde_json::Number>, FieldError>(s.border_right)
    &&& number_entry(lookup(f, "border_left"@)) == Ok::<Option<serde_json::Number>, FieldError>(s.border_left)
    &&& number_entry(lookup(f, "border_top"@)) == Ok::<Option<serde_json::Number>, FieldError>(s.border_top)
    &&& number_entry(lookup(f, "border_start"@)) == Ok::<Option<serde_json::Number>, FieldError>(s.border_start)
    &&& number_entry(lookup(f, "border_end"@)) == Ok::<Option<serde_json::Number>, FieldError>(s.border_end)
    &&& number_entry(lookup(f, "border"@)) == Ok::<Option<serde_json::Number>, FieldError>(s.border)
    &&& number_entry(lookup(f, "flex_shrink"@)) == Ok::<Option<serde_json::Number>, FieldError>(s.flex_shrink)
    &&& number_entry(lookup(f, "flex_grow"@)) == Ok::<Option<serde_json::Number>, FieldError>(s.flex_grow)
    &&& number_entry(lookup(f, "flex"@)) == Ok::<Option<serde_json::Number>, FieldError>(s.flex)
    &&& length_entry(lookup(f, "bottom"@)) == Ok::<Option<LengthModel>, FieldError>(option_view(s.bottom))
    &&& length_entry(lookup(f, "end"@)) == Ok::<Option<LengthModel>, FieldError>(option_view(s.end))
    &&& length_entry(lookup(f, "flex_basis"@)) == Ok::<Option<LengthModel>, FieldError>(option_view(s.flex_basis))
    &&& length_entry(lookup(f, "height"@)) == Ok::<Option<LengthModel>, FieldError>(option_view(s.height))
    &&& length_entry(lookup(f, "left"@)) == Ok::<Option<LengthModel>, FieldError>(option_view(s.left))
    &&& length_entry(lookup(f, "margin"@)) == Ok::<Option<LengthModel>, FieldError>(option_view(s.margin))
    &&& length_entry(lookup(f, "margin_bottom"@)) == Ok::<Option<LengthModel>, FieldError>(option_view(s.margin_bottom))
    &&& length_entry(lookup(f, "margin_end"@)) == Ok::<Option<LengthModel>, FieldError>(option_view(s.margin_end))
    &&& length_entry(lookup(f, "margin_horizontal"@)) == Ok::<Option<LengthModel>, FieldError>(option_view(s.margin_horizontal))
    &&& length_entry(lookup(f, "margin_left"@)) == Ok::<Option<LengthModel>, FieldError>(option_view(s.margin_left))
    &&& length_entry(lookup(f, "margin_right"@)) == Ok::<Option<LengthModel>, FieldError>(option_view(s.margin_right))
    &&& length_entry(lookup(f, "margin_start"@)) == Ok::<Option<LengthModel>, FieldError>(option_view(s.margin_start))
    &&& length_entry(lookup(f, "margin_top"@)) == Ok::<Option<LengthModel>, FieldError>(option_view(s.margin_top))
    &&& length_entry(lookup(f, "margin_vertical"@)) == Ok::<Option<LengthModel>, FieldError>(option_view(s.margin_vertical))
    &&& length_entry(lookup(f, "max_height"@)) == Ok::<Option<LengthModel>, FieldError>(option_view(s.max_height))
    &&& length_entry(lookup(f, "max_width"@)) == Ok::<Option<LengthModel>, FieldError>(option_view(s.max_width))
    &&& length_entry(lookup(f, "min_height"@)) == Ok::<Option<LengthModel>, FieldError>(option_view(s.min_height))
    &&& length_entry(lookup(f, "min_width"@)) == Ok::<Option<LengthModel>, FieldError>(option_view(s.min_width))
    &&& length_entry(lookup(f, "padding"@)) == Ok::<Option<LengthModel>, FieldError>(option_view(s.padding))
    &&& length_entry(lookup(f, "padding_bottom"@)) == Ok::<Option<LengthModel>, FieldError>(option_view(s.padding_bottom))
    &&& length_entry(lookup(f, "padding_end"@)) == Ok::<Option<LengthModel>, FieldError>(option_view(s.padding_end))
    &&& length_entry(lookup(f, "padding_horizontal"@)) == Ok::<Option<LengthModel>, FieldError>(option_view(s.padding_horizontal))
    &&& length_entry(lookup(f, "padding_left"@)) == Ok::<Option<LengthModel>, FieldError>(option_view(s.padding_left))
    &&& length_entry(lookup(f, "padding_right"@)) == Ok::<Option<LengthModel>, FieldError>(option_view(s.padding_right))
    &&& length_entry(lookup(f, "padding_start"@)) == Ok::<Option<LengthModel>, FieldError>(option_view(s.padding_start))
    &&& length_entry(lookup(f, "padding_top"@)) == Ok::<Option<LengthModel>, FieldError>(option_view(s.padding_top))
    &&& length_entry(lookup(f, "padding_vertical"@)) == Ok::<Option<LengthModel>, FieldError>(option_view(s.padding_vertical))
    &&& length_entry(lookup(f, "right"@)) == Ok::<Option<LengthModel>, FieldError>(option_view(s.right))
    &&& length_entry(lookup(f, "start"@)) == Ok::<Option<LengthModel>, FieldError>(option_view(s.start))
    &&& length_entry(lookup(f, "top"@)) == Ok::<Option<LengthModel>, FieldError>(option_view(s.top))
    &&& length_entry(lookup(f, "width"@)) == Ok::<Option<LengthModel>, FieldError>(option_view(s.width))
    &&& s.background == background_entry(lookup(f, "background"@))
}

/// The property `name` is one of the record's and its entry fails with `p`.
pub open spec fn field_fails(f: Seq<(String, JsonField)>, name: Seq<char>, p: FieldError) -> bool {
    ||| name == "flex_direction"@ && FlexDirection::spec_entry(lookup(f, name)) == Err::<Option<FlexDirection>, FieldError>(p)
    ||| name == "justify_content"@ && Justify::spec_entry(lookup(f, name)) == Err::<Option<Justify>, FieldError>(p)
    ||| name == "position"@ && PositionType::spec_entry(lookup(f, name)) == Err::<Option<PositionType>, FieldError>(p)
    ||| name == "align_content"@ && Align::spec_entry(lookup(f, name)) == Err::<Option<Align>, FieldError>(p)
    ||| name == "align_items"@ && Align::spec_entry(lookup(f, name)) == Err::<Option<Align>, FieldError>(p)
    ||| name == "align_self"@ && Align::spec_entry(lookup(f, name)) == Err::<Option<Align>, FieldError>(p)
    ||| name == "flex_wrap"@ && Wrap::spec_entry(lookup(f, name)) == Err::<Option<Wrap>, FieldError>(p)
    ||| name == "display"@ && Display::spec_entry(lookup(f, name)) == Err::<Option<Display>, FieldError>(p)
    ||| name == "overflow"@ && Overflow::spec_entry(lookup(f, name)) == Err::<Option<Overflow>, FieldError>(p)
    ||| is_number_name(name) && number_entry(lookup(f, name)) == Err::<Option<serde_json::Number>, FieldError>(p)
    ||| is_length_name(name) && length_entry(lookup(f, name)) == Err::<Option<LengthModel>, FieldError>(p)
}

fn field_error(name: &str, p: FieldError) -> (r: StyleError)
    ensures
        match r {
            StyleError::InvalidField { name: n, problem: q } => n@ == name@ && q == p,
            _ => false,
        },
{
    StyleError::InvalidField { name: String::from_str(name), problem: p }
}

/// Builds the style record from the entries of a JSON object. Entries with
/// names outside the record are ignored; the record is built when every
/// property decodes, and otherwise the error names a property that does not.
#[verifier::rlimit(50)]
pub fn style_from_fields(f: &Vec<(String, JsonField)>) -> (r: Result<ElementStyle, StyleError>)
    ensures
        r is Ok <==> record_ok(f@),
        match r {
            Ok(s) => record_matches(s, f@),
            Err(StyleError::InvalidField { name, problem }) => field_fails(f@, name@, problem),
            Err(_) => false,
        },
{
    let flex_direction = match FlexDirection::read_entry(f, "flex_direction") {
        Ok(x) => x,
        Err(p) => return Err(field_error("flex_direction", p)),
    };
    let justify_content = match Justify::read_entry(f, "justify_content") {
        Ok(x) => x,
        Err(p) => return Err(field_error("justify_content", p)),
    };
    let position = match PositionType::read_entry(f, "position") {
        Ok(x) => x,
        Err(p) => return Err(field_error("position", p)),
    };
    let align_content = match Align::read_entry(f, "align_content") {
        Ok(x) => x,
        Err(p) => return Err(field_error("align_content", p)),
    };
    let align_items = match Align::read_entry(f, "align_items") {
        Ok(x) => x,
        Err(p) => return Err(field_error("align_items", p)),
    };
    let align_self = match Align::read_entry(f, "align_self") {
        Ok(x) => x,
        Err(p) => return Err(field_error("align_self", p)),
    };
    let flex_wrap = match Wrap::read_entry(f, "flex_wrap") {
        Ok(x) => x,
        Err(p) => return Err(field_error("flex_wrap", p)),
    };
    let display = match Display::read_entry(f, "display") {
        Ok(x) => x,
        Err(p) => return Err(field_error("display", p)),
    };
    let overflow = match Overflow::read_entry(f, "overflow") {
        Ok(x) => x,
        Err(p) => return Err(field_error("overflow", p)),
    };
    let aspect_ratio = match read_number(f, "aspect_ratio") {
        Ok(x) => x,
        Err(p) => return Err(field_error("aspect_ratio", p)),
    };
    let border_bottom = match read_number(f, "border_bottom") {
        Ok(x) => x,
        Err(p) => return Err(field_error("border_bottom", p)),
    };
    let border_right = match read_number(f, "border_right") {
        Ok(x) => x,
        Err(p) => return Err(field_error("border_right", p)),
    };
    let border_left = match read_number(f, "border_left") {
        Ok(x) => x,
        Err(p) => return Err(field_error("border_left", p)),
    };
    let border_top = match read_number(f, "border_top") {
        Ok(x) => x,
        Err(p) => return Err(field_error("border_top", p)),
    };
    let border_start = match read_number(f, "border_start") {
        Ok(x) => x,
        Err(p) => return Err(field_error("border_start", p)),
    };
    let border_end = match read_number(f, "border_end") {
        Ok(x) => x,
        Err(p) => return Err(field_error("border_end", p)),
    };
    let border = match read_number(f, "border") {
        Ok(x) => x,
        Err(p) => return Err(field_error("border", p)),
    };
    let flex_shrink = match read_number(f, "flex_shrink") {
        Ok(x) => x,
        Err(p) => return Err(field_error("flex_shrink", p)),
    };
    let flex_grow = match read_number(f, "flex_grow") {
        Ok(x) => x,
        Err(p) => return Err(field_error("flex_grow", p)),
    };
    let flex = match read_number(f, "flex") {
        Ok(x) => x,
        Err(p) => return Err(field_error("flex", p)),
    };
    let bottom = match read_length(f, "bottom") {
        Ok(x) => x,
        Err(p) => return Err(field_error("bottom", p)),
    };
    let end = match read_length(f, "end") {
        Ok(x) => x,
        Err(p) => return Err(field_error("end", p)),
    };
    let flex_basis = match read_length(f, "flex_basis") {
        Ok(x) => x,
        Err(p) => return Err(field_error("flex_basis", p)),
    };
    let height = match read_length(f, "height") {
        Ok(x) => x,
        Err(p) => return Err(field_error("height", p)),
    };
    let left = match read_length(f, "left") {
        Ok(x) => x,
        Err(p) => return Err(field_error("left", p)),
    };
    let margin = match read_length(f, "margin") {
        Ok(x) => x,
        Err(p) => return Err(field_error("margin", p)),
    };
    let margin_bottom = match read_length(f, "margin_bottom") {
        Ok(x) => x,
        Err(p) => return Err(field_error("margin_bottom", p)),
    };
    let margin_end = match read_length(f, "margin_end") {
        Ok(x) => x,
        Err(p) => return Err(field_error("margin_end", p)),
    };
    let margin_horizontal = match read_length(f, "margin_horizontal") {
        Ok(x) => x,
        Err(p) => return Err(field_error("margin_horizontal", p)),
    };
    let margin_left = match read_length(f, "margin_left") {
        Ok(x) => x,
        Err(p) => return Err(field_error("margin_left", p)),
    };
    let margin_right = match read_length(f, "margin_right") {
        Ok(x) => x,
        Err(p) => return Err(field_error("margin_right", p)),
    };
    let margin_start = match read_length(f, "margin_start") {
        Ok(x) => x,
        Err(p) => return Err(field_error("margin_start", p)),
    };
    let margin_top = match read_length(f, "margin_top") {
        Ok(x) => x,
        Err(p) => return Err(field_error("margin_top", p)),
    };
    let margin_vertical = match read_length(f, "margin_vertical") {
        Ok(x) => x,
        Err(p) => return Err(field_error("margin_vertical", p)),
    };
    let max_height = match read_length(f, "max_height") {
        Ok(x) => x,
        Err(p) => return Err(field_error("max_height", p)),
    };
    let max_width = match read_length(f, "max_width") {
        Ok(x) => x,
        Err(p) => return Err(field_error("max_width", p)),
    };
    let min_height = match read_length(f, "min_height") {
        Ok(x) => x,
        Err(p) => return Err(field_error("min_height", p)),
    };
    let min_width = match read_length(f, "min_width") {
        Ok(x) => x,
        Err(p) => return Err(field_error("min_width", p)),
    };
    let padding = match read_length(f, "padding") {
        Ok(x) => x,
        Err(p) => return Err(field_error("padding", p)),
    };
    let padding_bottom = match read_length(f, "padding_bottom") {
        Ok(x) => x,
        Err(p) => return Err(field_error("padding_bottom", p)),
    };
    let padding_end = match read_length(f, "padding_end") {
        Ok(x) => x,
        Err(p) => return Err(field_error("padding_end", p)),
    };
    let padding_horizontal = match read_length(f, "padding_horizontal") {
        Ok(x) => x,
        Err(p) => return Err(field_error("padding_horizontal", p)),
    };
    let padding_left = match read_length(f, "padding_left") {
        Ok(x) => x,
        Err(p) => return Err(field_error("padding_left", p)),
    };
    let padding_right = match read_length(f, "padding_right") {
        Ok(x) => x,
        Err(p) => return Err(field_error("padding_right", p)),
    };
    let padding_start = match read_length(f, "padding_start") {
        Ok(x) => x,
        Err(p) => return Err(field_error("padding_start", p)),
    };
    let padding_top = match read_length(f, "padding_top") {
        Ok(x) => x,
        Err(p) => return Err(field_error("padding_top", p)),
    };
    let padding_vertical = match read_length(f, "padding_vertical") {
        Ok(x) => x,
        Err(p) => return Err(field_error("padding_vertical", p)),
    };
    let right = match read_length(f, "right") {
        Ok(x) => x,
        Err(p) => return Err(field_error("right", p)),
    };
    let start = match read_length(f, "start") {
        Ok(x) => x,
        Err(p) => return Err(field_error("start", p)),
    };
    let top = match read_length(f, "top") {
        Ok(x) => x,
        Err(p) => return Err(field_error("top", p)),
    };
    let width = match read_length(f, "width") {
        Ok(x) => x,
        Err(p) => return Err(field_error("width", p)),
    };
    let background = read_background(f);
    Ok(ElementStyle {
        flex_direction,
        justify_content,
        position,
        align_content,
        align_items,
        align_self,
        flex_wrap,
        display,
        overflow,
        aspect_ratio,
        border_bottom,
        border_right,
        border_left,
        border_top,
        border_start,
        border_end,
        border,
        flex_shrink,
        flex_grow,
        flex,
        bottom,
        end,
        flex_basis,
        height,
        left,
        margin,
        margin_bottom,
        margin_end,
        margin_horizontal,
        margin_left,
        margin_right,
        margin_start,
        margin_top,
        margin_vertical,
        max_height,
        max_width,
        min_height,
        min_width,
        padding,
        padding_bottom,
        padding_end,
        padding_horizontal,
        padding_left,
        padding_right,
        padding_start,
        padding_top,
        padding_vertical,
        right,
        start,
        top,
        width,
        background,
    })
}

/// Whether `v` is the encoding of `t`: null for nothing, a string otherwise.
pub open spec fn is_text_value(v: JsonField, t: Option<Seq<char>>) -> bool {
    match t {
        None => v == JsonField::Null,
        Some(t) => v matches JsonField::Text(x) && x@ == t,
    }
}

/// The encoding of an optional number or background: null for nothing.
pub open spec fn value_or_null(o: Option<JsonField>) -> JsonField {
    match o {
        None => JsonField::Null,
        Some(x) => x,
    }
}

pub open spec fn number_field(o: Option<serde_json::Number>) -> Option<JsonField> {
    match o {
        None => None,
        Some(n) => Some(JsonField::Number(n)),
    }
}

fn text_or_null(t: Option<String>) -> (r: JsonField)
    ensures
        match t {
            None => r == JsonField::Null,
            Some(x) => r == JsonField::Text(x),
        },
{
    match t {
        None => JsonField::Null,
        Some(x) => JsonField::Text(x),
    }
}

fn number_or_null(o: &Option<serde_json::Number>) -> (r: JsonField)
    ensures
        r == value_or_null(number_field(*o)),
{
    match o {
        None => JsonField::Null,
        Some(n) => JsonField::Number(n.clone()),
    }
}

fn background_or_null(o: &Option<JsonField>) -> (r: JsonField)
    ensures
        r == value_or_null(*o),
{
    match o {
        None => JsonField::Null,
        Some(x) => copy_field(x),
    }
}

/// Every length of the record holds a well-formed number.
pub open spec fn style_wf(s: ElementStyle) -> bool {
    &&& (s.bottom matches Some(l) ==> l@.wf())
    &&& (s.end matches Some(l) ==> l@.wf())
    &&& (s.flex_basis matches Some(l) ==> l@.wf())
    &&& (s.height matches Some(l) ==> l@.wf())
    &&& (s.left matches Some(l) ==> l@.wf())
    &&& (s.margin matches Some(l) ==> l@.wf())
    &&& (s.margin_bottom matches Some(l) ==> l@.wf())
    &&& (s.margin_end matches Some(l) ==> l@.wf())
    &&& (s.margin_horizontal matches Some(l) ==> l@.wf())
    &&& (s.margin_left matches Some(l) ==> l@.wf())
    &&& (s.margin_right matches Some(l) ==> l@.wf())
    &&& (s.margin_start matches Some(l) ==> l@.wf())
    &&& (s.margin_top matches Some(l) ==> l@.wf())
    &&& (s.margin_vertical matches Some(l) ==> l@.wf())
    &&& (s.max_height matches Some(l) ==> l@.wf())
    &&& (s.max_width matches Some(l) ==> l@.wf())
    &&& (s.min_height matches Some(l) ==> l@.wf())
    &&& (s.min_width matches Some(l) ==> l@.wf())
    &&& (s.padding matches Some(l) ==> l@.wf())
    &&& (s.padding_bottom matches Some(l) ==> l@.wf())
    &&& (s.padding_end matches Some(l) ==> l@.wf())
    &&& (s.padding_horizontal matches Some(l) ==> l@.wf())
    &&& (s.padding_left matches Some(l) ==> l@.wf())
    &&& (s.padding_right matches Some(l) ==> l@.wf())
    &&& (s.padding_start matches Some(l) ==> l@.wf())
    &&& (s.padding_top matches Some(l) ==> l@.wf())
    &&& (s.padding_vertical matches Some(l) ==> l@.wf())
    &&& (s.right matches Some(l) ==> l@.wf())
    &&& (s.start matches Some(l) ==> l@.wf())
    &&& (s.top matches Some(l) ==> l@.wf())
    &&& (s.width matches Some(l) ==> l@.wf())
}

/// Whether every length of the record holds a well-formed number.
pub fn style_is_wf(s: &ElementStyle) -> (r: bool)
    ensures
        r == style_wf(*s),
{
    if let Some(l) = &s.bottom {
        if !l.is_wf() {
            return false;
        }
    }
    if let Some(l) = &s.end {
        if !l.is_wf() {
            return false;
        }
    }
    if let Some(l) = &s.flex_basis {
        if !l.is_wf() {
            return false;
        }
    }
    if let Some(l) = &s.height {
        if !l.is_wf() {
            return false;
        }
    }
    if let Some(l) = &s.left {
        if !l.is_wf() {
            return false;
        }
    }
    if let Some(l) = &s.margin {
        if !l.is_wf() {
            return false;
        }
    }
    if let Some(l) = &s.margin_bottom {
        if !l.is_wf() {
            return false;
        }
    }
    if let Some(l) = &s.margin_end {
        if !l.is_wf() {
            return false;
        }
    }
    if let Some(l) = &s.margin_horizontal {
        if !l.is_wf() {
            return false;
        }
    }
    if let Some(l) = &s.margin_left {
        if !l.is_wf() {
            return false;
        }
    }
    if let Some(l) = &s.margin_right {
        if !l.is_wf() {
            return false;
        }
    }
    if let Some(l) = &s.margin_start {
        if !l.is_wf() {
            return false;
        }
    }
    if let Some(l) = &s.margin_top {
        if !l.is_wf() {
            return false;
        }
    }
    if let Some(l) = &s.margin_vertical {
        if !l.is_wf() {
            return false;
        }
    }
    if let Some(l) = &s.max_height {
        if !l.is_wf() {
            return false;
        }
    }
    if let Some(l) = &s.max_width {
        if !l.is_wf() {
            return false;
        }
    }
    if let Some(l) = &s.min_height {
        if !l.is_wf() {
            return false;
        }
    }
    if let Some(l) = &s.min_width {
        if !l.is_wf() {
            return false;
        }
    }
    if let Some(l) = &s.padding {
        if !l.is_wf() {
            return false;
        }
    }
    if let Some(l) = &s.padding_bottom {
        if !l.is_wf() {
            return false;
        }
    }
    if let Some(l) = &s.padding_end {
        if !l.is_wf() {
            return false;
        }
    }
    if let Some(l) = &s.padding_horizontal {
        if !l.is_wf() {
            return false;
        }
    }
    if let Some(l) = &s.padding_left {
        if !l.is_wf() {
            return false;
        }
    }
    if let Some(l) = &s.padding_right {
        if !l.is_wf() {
            return false;
        }
    }
    if let Some(l) = &s.padding_start {
        if !l.is_wf() {
            return false;
        }
    }
    if let Some(l) = &s.padding_top {
        if !l.is_wf() {
            return false;
        }
    }
    if let Some(l) = &s.padding_vertical {
        if !l.is_wf() {
            return false;
        }
    }
    if let Some(l) = &s.right {
        if !l.is_wf() {
            return false;
        }
    }
    if let Some(l) = &s.start {
        if !l.is_wf() {
            return false;
        }
    }
    if let Some(l) = &s.top {
        if !l.is_wf() {
            return false;
        }
    }
    if let Some(l) = &s.width {
        if !l.is_wf() {
            return false;
        }
    }
    true
}

/// The properties in the order in which a record is encoded.
pub open spec fn field_names() -> Seq<Seq<char>> {
    seq![
        "flex_direction"@,
        "justify_content"@,
        "position"@,
        "align_content"@,
        "align_items"@,
        "align_self"@,
        "flex_wrap"@,
        "display"@,
        "overflow"@,
        "aspect_ratio"@,
        "border_bottom"@,
        "border_right"@,
        "border_left"@,
        "border_top"@,
        "border_start"@,
        "border_end"@,
        "border"@,
        "flex_shrink"@,
        "flex_grow"@,
        "flex"@,
        "bottom"@,
        "end"@,
        "flex_basis"@,
        "height"@,
        "left"@,
        "margin"@,
        "margin_bottom"@,
        "margin_end"@,
        "margin_horizontal"@,
        "margin_left"@,
        "margin_right"@,
        "margin_start"@,
        "margin_top"@,
        "margin_vertical"@,
        "max_height"@,
        "max_width"@,
        "min_height"@,
        "min_width"@,
        "padding"@,
        "padding_bottom"@,
        "padding_end"@,
        "padding_horizontal"@,
        "padding_left"@,
        "padding_right"@,
        "padding_start"@,
        "padding_top"@,
        "padding_vertical"@,
        "right"@,
        "start"@,
        "top"@,
        "width"@,
        "background"@
    ]
}

/// Encodes a record as the entries of a JSON object, one per property in
/// the order of `field_names`: null for an absent property, the word for a
/// property with a vocabulary, the number, the encoded length, and the
/// background as it is.
pub fn style_to_fields(s: &ElementStyle) -> (r: Vec<(String, JsonField)>)
    requires
        style_wf(*s),
    ensures
        r@.len() == field_names().len(),
        forall|i: int| 0 <= i < r@.len() ==> (#[trigger] r@[i]).0@ == field_names()[i],
        is_text_value(r@[0].1, FlexDirection::spec_word_of(s.flex_direction)),
        is_text_value(r@[1].1, Justify::spec_word_of(s.justify_content)),
        is_text_value(r@[2].1, PositionType::spec_word_of(s.position)),
        is_text_value(r@[3].1, Align::spec_word_of(s.align_content)),
        is_text_value(r@[4].1, Align::spec_word_of(s.align_items)),
        is_text_value(r@[5].1, Align::spec_word_of(s.align_self)),
        is_text_value(r@[6].1, Wrap::spec_word_of(s.flex_wrap)),
        is_text_value(r@[7].1, Display::spec_word_of(s.display)),
        is_text_value(r@[8].1, Overflow::spec_word_of(s.overflow)),
        r@[9].1 == value_or_null(number_field(s.aspect_ratio)),
        r@[10].1 == value_or_null(number_field(s.border_bottom)),
        r@[11].1 == value_or_null(number_field(s.border_right)),
        r@[12].1 == value_or_null(number_field(s.border_left)),
        r@[13].1 == value_or_null(number_field(s.border_top)),
        r@[14].1 == value_or_null(number_field(s.border_start)),
        r@[15].1 == value_or_null(number_field(s.border_end)),
        r@[16].1 == value_or_null(number_field(s.border)),
        r@[17].1 == value_or_null(number_field(s.flex_shrink)),
        r@[18].1 == value_or_null(number_field(s.flex_grow)),
        r@[19].1 == value_or_null(number_field(s.flex)),
        is_text_value(r@[20].1, encode_text(option_view(s.bottom))),
        is_text_value(r@[21].1, encode_text(option_view(s.end))),
        is_text_value(r@[22].1, encode_text(option_view(s.flex_basis))),
        is_text_value(r@[23].1, encode_text(option_view(s.height))),
        is_text_value(r@[24].1, encode_text(option_view(s.left))),
        is_text_value(r@[25].1, encode_text(option_view(s.margin))),
        is_text_value(r@[26].1, encode_text(option_view(s.margin_bottom))),
        is_text_value(r@[27].1, encode_text(option_view(s.margin_end))),
        is_text_value(r@[28].1, encode_text(option_view(s.margin_horizontal))),
        is_text_value(r@[29].1, encode_text(option_view(s.margin_left))),
        is_text_value(r@[30].1, encode_text(option_view(s.margin_right))),
        is_text_value(r@[31].1, encode_text(option_view(s.margin_start))),
        is_text_value(r@[32].1, encode_text(option_view(s.margin_top))),
        is_text_value(r@[33].1, encode_text(option_view(s.margin_vertical))),
        is_text_value(r@[34].1, encode_text(option_view(s.max_height))),
        is_text_value(r@[35].1, encode_text(option_view(s.max_width))),
        is_text_value(r@[36].1, encode_text(option_view(s.min_height))),
        is_text_value(r@[37].1, encode_text(option_view(s.min_width))),
        is_text_value(r@[38].1, encode_text(option_view(s.padding))),
        is_text_value(r@[39].1, encode_text(option_view(s.padding_bottom))),
        is_text_value(r@[40].1, encode_text(option_view(s.padding_end))),
        is_text_value(r@[41].1, encode_text(option_view(s.padding_horizontal))),
        is_text_value(r@[42].1, encode_text(option_view(s.padding_left))),
        is_text_value(r@[43].1, encode_text(option_view(s.padding_right))),
        is_text_value(r@[44].1, encode_text(option_view(s.padding_start))),
        is_text_value(r@[45].1, encode_text(option_view(s.padding_top))),
        is_text_value(r@[46].1, encode_text(option_view(s.padding_vertical))),
        is_text_value(r@[47].1, encode_text(option_view(s.right))),
        is_text_value(r@[48].1, encode_text(option_view(s.start))),
        is_text_value(r@[49].1, encode_text(option_view(s.top))),
        is_text_value(r@[50].1, encode_text(option_view(s.width))),
        r@[51].1 == value_or_null(s.background),
{
    let w0 = match s.flex_direction {
        Some(x) => Some(String::from_str(x.word())),
        None => None,
    };
    let e0 = (String::from_str("flex_direction"), text_or_null(w0));
    let w1 = match s.justify_content {
        Some(x) => Some(String::from_str(x.word())),
        None => None,
    };
    let e1 = (String::from_str("justify_content"), text_or_null(w1));
    let w2 = match s.position {
        Some(x) => Some(String::from_str(x.word())),
        None => None,
    };
    let e2 = (String::from_str("position"), text_or_null(w2));
    let w3 = match s.align_content {
        Some(x) => Some(String::from_str(x.word())),
        None => None,
    };
    let e3 = (String::from_str("align_content"), text_or_null(w3));
    let w4 = match s.align_items {
        Some(x) => Some(String::from_str(x.word())),
        None => None,
    };
    let e4 = (String::from_str("align_items"), text_or_null(w4));
    let w5 = match s.align_self {
        Some(x) => Some(String::from_str(x.word())),
        None => None,
    };
    let e5 = (String::from_str("align_self"), text_or_null(w5));
    let w6 = match s.flex_wrap {
        Some(x) => Some(String::from_str(x.word())),
        None => None,
    };
    let e6 = (String::from_str("flex_wrap"), text_or_null(w6));
    let w7 = match s.display {
        Some(x) => Some(String::from_str(x.word())),
        None => None,
    };
    let e7 = (String::from_str("display"), text_or_null(w7));
    let w8 = match s.overflow {
        Some(x) => Some(String::from_str(x.word())),
        None => None,
    };
    let e8 = (String::from_str("overflow"), text_or_null(w8));
    let e9 = (String::from_str("aspect_ratio"), number_or_null(&s.aspect_ratio));
    let e10 = (String::from_str("border_bottom"), number_or_null(&s.border_bottom));
    let e11 = (String::from_str("border_right"), number_or_null(&s.border_right));
    let e12 = (String::from_str("border_left"), number_or_null(&s.border_left));
    let e13 = (String::from_str("border_top"), number_or_null(&s.border_top));
    let e14 = (String::from_str("border_start"), number_or_null(&s.border_start));
    let e15 = (String::from_str("border_end"), number_or_null(&s.border_end));
    let e16 = (String::from_str("border"), number_or_null(&s.border));
    let e17 = (String::from_str("flex_shrink"), number_or_null(&s.flex_shrink));
    let e18 = (String::from_str("flex_grow"), number_or_null(&s.flex_grow));
    let e19 = (String::from_str("flex"), number_or_null(&s.flex));
    let e20 = (String::from_str("bottom"), text_or_null(serialize(&s.bottom)));
    let e21 = (String::from_str("end"), text_or_null(serialize(&s.end)));
    let e22 = (String::from_str("flex_basis"), text_or_null(serialize(&s.flex_basis)));
    let e23 = (String::from_str("height"), text_or_null(serialize(&s.height)));
    let e24 = (String::from_str("left"), text_or_null(serialize(&s.left)));
    let e25 = (String::from_str("margin"), text_or_null(serialize(&s.margin)));
    let e26 = (String::from_str("margin_bottom"), text_or_null(serialize(&s.margin_bottom)));
    let e27 = (String::from_str("margin_end"), text_or_null(serialize(&s.margin_end)));
    let e28 = (String::from_str("margin_horizontal"), text_or_null(serialize(&s.margin_horizontal)));
    let e29 = (String::from_str("margin_left"), text_or_null(serialize(&s.margin_left)));
    let e30 = (String::from_str("margin_right"), text_or_null(serialize(&s.margin_right)));
    let e31 = (String::from_str("margin_start"), text_or_null(serialize(&s.margin_start)));
    let e32 = (String::from_str("margin_top"), text_or_null(serialize(&s.margin_top)));
    let e33 = (String::from_str("margin_vertical"), text_or_null(serialize(&s.margin_vertical)));
    let e34 = (String::from_str("max_height"), text_or_null(serialize(&s.max_height)));
    let e35 = (String::from_str("max_width"), text_or_null(serialize(&s.max_width)));
    let e36 = (String::from_str("min_height"), text_or_null(serialize(&s.min_height)));
    let e37 = (String::from_str("min_width"), text_or_null(serialize(&s.min_width)));
    let e38 = (String::from_str("padding"), text_or_null(serialize(&s.padding)));
    let e39 = (String::from_str("padding_bottom"), text_or_null(serialize(&s.padding_bottom)));
    let e40 = (String::from_str("padding_end"), text_or_null(serialize(&s.padding_end)));
    let e41 = (String::from_str("padding_horizontal"), text_or_null(serialize(&s.padding_horizontal)));
    let e42 = (String::from_str("padding_left"), text_or_null(serialize(&s.padding_left)));
    let e43 = (String::from_str("padding_right"), text_or_null(serialize(&s.padding_right)));
    let e44 = (String::from_str("padding_start"), text_or_null(serialize(&s.padding_start)));
    let e45 = (String::from_str("padding_top"), text_or_null(serialize(&s.padding_top)));
    let e46 = (String::from_str("padding_vertical"), text_or_null(serialize(&s.padding_vertical)));
    let e47 = (String::from_str("right"), text_or_null(serialize(&s.right)));
    let e48 = (String::from_str("start"), text_or_null(serialize(&s.start)));
    let e49 = (String::from_str("top"), text_or_null(serialize(&s.top)));
    let e50 = (String::from_str("width"), text_or_null(serialize(&s.width)));
    let e51 = (String::from_str("background"), background_or_null(&s.background));
    let r = vec![
        e0, e1, e2, e3, e4, e5, e6, e7, e8, e9, e10, e11,
        e12, e13, e14, e15, e16, e17, e18, e19, e20, e21, e22, e23,
        e24, e25, e26, e27, e28, e29, e30, e31, e32, e33, e34, e35,
        e36, e37, e38, e39, e40, e41, e42, e43, e44, e45, e46, e47,
        e48, e49, e50, e51,
    ];
    r
}

/// Whether `name` is one of the record's properties.
pub open spec fn is_record_name(name: Seq<char>) -> bool {
    ||| name == "flex_direction"@
    ||| name == "justify_content"@
    ||| name == "position"@
    ||| name == "align_content"@
    ||| name == "align_items"@
    ||| name == "align_self"@
    ||| name == "flex_wrap"@
    ||| name == "display"@
    ||| name == "overflow"@
    ||| name == "aspect_ratio"@
    ||| name == "border_bottom"@
    ||| name == "border_right"@
    ||| name == "border_left"@
    ||| name == "border_top"@
    ||| name == "border_start"@
    ||| name == "border_end"@
    ||| name == "border"@
    ||| name == "flex_shrink"@
    ||| name == "flex_grow"@
    ||| name == "flex"@
    ||| name == "bottom"@
    ||| name == "end"@
    ||| name == "flex_basis"@
    ||| name == "height"@
    ||| name == "left"@
    ||| name == "margin"@
    ||| name == "margin_bottom"@
    ||| name == "margin_end"@
    ||| name == "margin_horizontal"@
    ||| name == "margin_left"@
    ||| name == "margin_right"@
    ||| name == "margin_start"@
    ||| name == "margin_top"@
    ||| name == "margin_vertical"@
    ||| name == "max_height"@
    ||| name == "max_width"@
    ||| name == "min_height"@
    ||| name == "min_width"@
    ||| name == "padding"@
    ||| name == "padding_bottom"@
    ||| name == "padding_end"@
    ||| name == "padding_horizontal"@
    ||| name == "padding_left"@
    ||| name == "padding_right"@
    ||| name == "padding_start"@
    ||| name == "padding_top"@
    ||| name == "padding_vertical"@
    ||| name == "right"@
    ||| name == "start"@
    ||| name == "top"@
    ||| name == "width"@
    ||| name == "background"@
}

proof fn lemma_lookup_after(
    f: Seq<(String, JsonField)>,
    i: int,
    e: (String, JsonField),
    name: Seq<char>,
    j: int,
)
    requires
        0 <= i <= f.len(),
        i < j <= f.len() + 1,
    ensures
        lookup_from(f.insert(i, e), name, j) == lookup_from(f, name, j - 1),
    decreases f.len() + 1 - j,
{
    if j < f.len() + 1 {
        lemma_lookup_after(f, i, e, name, j + 1);
    }
}

proof fn lemma_lookup_before(
    f: Seq<(String, JsonField)>,
    i: int,
    e: (String, JsonField),
    name: Seq<char>,
    j: int,
)
    requires
        0 <= j <= i <= f.len(),
        e.0@ != name,
    ensures
        lookup_from(f.insert(i, e), name, j) == lookup_from(f, name, j),
    decreases i - j,
{
    if j < i {
        lemma_lookup_before(f, i, e, name, j + 1);
    } else {
        lemma_lookup_after(f, i, e, name, i + 1);
    }
}

/// Entries under names that are not properties of the record are ignored:
/// inserting one anywhere changes neither whether the record decodes nor
/// what it holds.
pub proof fn law_unknown_entry_ignored(
    f: Seq<(String, JsonField)>,
    i: int,
    e: (String, JsonField),
    s: ElementStyle,
)
    requires
        0 <= i <= f.len(),
        !is_record_name(e.0@),
    ensures
        record_ok(f.insert(i, e)) == record_ok(f),
        record_matches(s, f.insert(i, e)) == record_matches(s, f),
{
    assert forall|name: Seq<char>| name != e.0@ implies #[trigger] lookup(f.insert(i, e), name)
        == lookup(f, name) by {
        lemma_lookup_before(f, i, e, name, 0);
    }
}

/// Reads a style record from JSON text holding an object. Text that is not
/// JSON gives a syntax error and a value other than an object is refused;
/// otherwise the record is built from the object's entries as
/// `style_from_fields` does.
pub fn parse_json_style(json: String) -> (r: Result<ElementStyle, StyleError>)
    ensures
        match json_object_of(json@) {
            Some(Some(f)) => {
                &&& (r is Ok <==> record_ok(f))
                &&& match r {
                    Ok(s) => record_matches(s, f),
                    Err(StyleError::InvalidField { name, problem }) => field_fails(f, name@, problem),
                    Err(_) => false,
                }
            },
            Some(None) => r matches Err(StyleError::NotAnObject),
            None => r matches Err(StyleError::Syntax(_)),
        },
{
    match read_object(json.as_str()) {
        Err(e) => Err(StyleError::Syntax(json_error_text(&e))),
        Ok(None) => Err(StyleError::NotAnObject),
        Ok(Some(fields)) => style_from_fields(&fields),
    }
}

} // verus!

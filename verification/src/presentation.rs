//! Plot layout definitions: named panes with titles and relative weights.
//!
//! A pane weight is carried as the bit pattern of an IEEE-754 binary32 value.
use vstd::prelude::*;

use crate::process_control::control_loop::is_blank;
use crate::text::{is_whitespace, push_str, whitespace};

verus! {

/// Whether a character is an ASCII letter.
pub open spec fn is_ascii_letter(c: char) -> bool {
    ('a' <= c && c <= 'z') || ('A' <= c && c <= 'Z')
}

/// Whether a character is an ASCII digit.
pub open spec fn is_ascii_digit(c: char) -> bool {
    '0' <= c && c <= '9'
}

/// Whether a text is an identifier: an ASCII letter or underscore first, then ASCII letters,
/// digits or underscores.
pub open spec fn is_identifier(text: Seq<char>) -> bool {
    &&& text.len() > 0
    &&& (is_ascii_letter(text[0]) || text[0] == '_')
    &&& forall|i: int|
        1 <= i < text.len() ==> is_ascii_letter(#[trigger] text[i]) || is_ascii_digit(text[i])
            || text[i] == '_'
}

/// A refused presentation definition, with its description.
#[derive(Clone, Debug, PartialEq, Eq)]
pub struct PresentationDefinitionError {
    message: String,
}

impl View for PresentationDefinitionError {
    type V = Seq<char>;

    closed spec fn view(&self) -> Seq<char> {
        self.message@
    }
}

impl PresentationDefinitionError {
    fn new(message: String) -> (error: Self)
        ensures
            error@ == message@,
    {
        PresentationDefinitionError { message }
    }

    pub fn to_string(&self) -> (text: String)
        ensures
            text@ == self@,
    {
        self.message.clone()
    }
}

/// The description of an invalid pane identifier.
pub open spec fn invalid_identifier_text(identifier: Seq<char>) -> Seq<char> {
    "Invalid plot pane id '"@ + identifier
        + "': use an ASCII letter or underscore first, followed by letters, digits or underscores"@
}

fn identifier_character(c: char, first: bool) -> (valid: bool)
    ensures
        valid == (is_ascii_letter(c) || c == '_' || (!first && is_ascii_digit(c))),
{
    ('a' <= c && c <= 'z') || ('A' <= c && c <= 'Z') || c == '_' || (!first && '0' <= c && c <= '9')
}

/// Checks that a pane identifier is an identifier (see `is_identifier`).
fn validate_identifier(identifier: &str) -> (result: Result<(), PresentationDefinitionError>)
    ensures
        is_identifier(identifier@) <==> result is Ok,
        result matches Err(error) ==> error@ == invalid_identifier_text(identifier@),
{
    let length = identifier.unicode_len();
    let mut valid = length > 0;
    let mut index: usize = 0;
    while valid && index < length
        invariant
            length == identifier@.len(),
            index <= length,
            valid ==> length > 0,
            valid ==> forall|i: int|
                0 <= i < index ==> (is_ascii_letter(#[trigger] identifier@[i]) || identifier@[i]
                    == '_' || (i > 0 && is_ascii_digit(identifier@[i]))),
            !valid ==> !is_identifier(identifier@),
        decreases length - index + if valid { 1int } else { 0int },
    {
        let c = identifier.get_char(index);
        if !identifier_character(c, index == 0) {
            valid = false;
        } else {
            index += 1;
        }
    }
    if !valid {
        let mut message = String::new();
        push_str(&mut message, "Invalid plot pane id '");
        push_str(&mut message, identifier);
        push_str(
            &mut message,
            "': use an ASCII letter or underscore first, followed by letters, digits or underscores",
        );
        assert(message@ =~= invalid_identifier_text(identifier@));
        return Err(PresentationDefinitionError::new(message));
    }
    assert(identifier@[0] == identifier@[0]);
    Ok(())
}

/// The key of a plot pane: an identifier.
#[derive(Clone, Debug, PartialEq, Eq, Hash)]
pub struct PlotPaneKey(String);

impl View for PlotPaneKey {
    type V = Seq<char>;

    closed spec fn view(&self) -> Seq<char> {
        self.0@
    }
}

impl PlotPaneKey {
    /// A pane key; refused unless the value is an identifier.
    pub fn new(value: &str) -> (result: Result<Self, PresentationDefinitionError>)
        ensures
            is_identifier(value@) <==> result is Ok,
            result matches Ok(key) ==> key@ == value@,
            result matches Err(error) ==> error@ == invalid_identifier_text(value@),
    {
        match validate_identifier(value) {
            Ok(()) => Ok(PlotPaneKey(value.to_owned())),
            Err(error) => Err(error),
        }
    }

    pub fn as_str(&self) -> (text: &str)
        ensures
            text@ == self@,
    {
        self.0.as_str()
    }

    fn duplicate(&self) -> (copy: Self)
        ensures
            copy@ == self@,
    {
        PlotPaneKey(self.0.clone())
    }
}

/// The pattern of binary32 positive infinity.
pub const SINGLE_INFINITY_BITS: u32 = 0x7F80_0000;

/// The pattern of binary32 `1.0`.
pub const SINGLE_ONE_BITS: u32 = 0x3F80_0000;

/// Whether a binary32 pattern denotes a finite value greater than zero.
pub open spec fn is_positive_finite_single(bits: u32) -> bool {
    0 < bits < SINGLE_INFINITY_BITS
}

/// A pane of a plot layout: its key, a title that is not blank, and a positive finite weight.
#[derive(Clone, Debug, PartialEq)]
pub struct PlotPaneDefinition {
    key: PlotPaneKey,
    title: String,
    weight: u32,
}

/// The abstract content of a pane definition.
pub struct PaneView {
    pub key: Seq<char>,
    pub title: Seq<char>,
    pub weight: u32,
}

impl View for PlotPaneDefinition {
    type V = PaneView;

    closed spec fn view(&self) -> PaneView {
        PaneView { key: self.key@, title: self.title@, weight: self.weight }
    }
}

/// The description of a blank pane title.
pub open spec fn blank_title_text() -> Seq<char> {
    "Plot pane title cannot be empty"@
}

/// The description of an invalid pane weight.
pub open spec fn invalid_weight_text() -> Seq<char> {
    "Plot pane weight must be finite and greater than zero"@
}

fn all_whitespace(text: &str) -> (blank: bool)
    ensures
        blank == is_blank(text@),
{
    let length = text.unicode_len();
    let mut index: usize = 0;
    while index < length
        invariant
            length == text@.len(),
            index <= length,
            forall|i: int| 0 <= i < index ==> is_whitespace(#[trigger] text@[i]),
        decreases length - index,
    {
        if !whitespace(text.get_char(index)) {
            return false;
        }
        index += 1;
    }
    true
}

impl PlotPaneDefinition {
    /// A pane; refused when the title is blank or the weight is not finite and above zero.
    pub fn new(key: PlotPaneKey, title: &str, weight: u32) -> (result: Result<Self, PresentationDefinitionError>)
        ensures
            is_blank(title@) ==> (result matches Err(error) && error@ == blank_title_text()),
            !is_blank(title@) && !is_positive_finite_single(weight) ==> (result matches Err(error)
                && error@ == invalid_weight_text()),
            !is_blank(title@) && is_positive_finite_single(weight) ==> (result matches Ok(pane)
                && pane@ == (PaneView { key: key@, title: title@, weight })),
    {
        if all_whitespace(title) {
            return Err(PresentationDefinitionError::new("Plot pane title cannot be empty".to_owned()));
        }
        if !(0 < weight && weight < SINGLE_INFINITY_BITS) {
            return Err(
                PresentationDefinitionError::new(
                    "Plot pane weight must be finite and greater than zero".to_owned(),
                ),
            );
        }
        Ok(PlotPaneDefinition { key, title: title.to_owned(), weight })
    }

    pub fn key(&self) -> (key: &PlotPaneKey)
        ensures
            key@ == self@.key,
    {
        &self.key
    }

    pub fn title(&self) -> (title: &str)
        ensures
            title@ == self@.title,
    {
        self.title.as_str()
    }

    pub fn weight(&self) -> (weight: u32)
        ensures
            weight == self@.weight,
    {
        self.weight
    }

    fn duplicate(&self) -> (copy: Self)
        ensures
            copy@ == self@,
    {
        PlotPaneDefinition { key: self.key.duplicate(), title: self.title.clone(), weight: self.weight }
    }
}

/// The views of a list of panes.
pub open spec fn pane_views(panes: Seq<PlotPaneDefinition>) -> Seq<PaneView> {
    panes.map_values(|pane: PlotPaneDefinition| pane@)
}

/// Whether no two panes share a key.
pub open spec fn pane_keys_distinct(panes: Seq<PaneView>) -> bool {
    forall|i: int, j: int| 0 <= i < j < panes.len() ==> panes[i].key != panes[j].key
}

/// Whether the pane at `index` is the first to repeat an earlier pane's key.
pub open spec fn is_first_repeated_pane(panes: Seq<PaneView>, index: int) -> bool {
    &&& 0 <= index < panes.len()
    &&& exists|i: int| 0 <= i < index && panes[i].key == panes[index].key
    &&& forall|j: int, i: int| 0 <= i < j < index ==> panes[i].key != panes[j].key
}

/// The description of a repeated pane key.
pub open spec fn repeated_pane_text(key: Seq<char>) -> Seq<char> {
    "Plot pane '"@ + key + "' is defined more than once"@
}

/// The description of a layout without panes.
pub open spec fn empty_layout_text() -> Seq<char> {
    "Plot layout must contain at least one pane"@
}

/// A plot layout: at least one pane, no two with the same key.
#[derive(Debug, PartialEq)]
pub struct PlotLayoutDefinition {
    panes: Vec<PlotPaneDefinition>,
}

impl View for PlotLayoutDefinition {
    type V = Seq<PaneView>;

    closed spec fn view(&self) -> Seq<PaneView> {
        pane_views(self.panes@)
    }
}

impl Clone for PlotLayoutDefinition {
    fn clone(&self) -> (copy: Self)
        ensures
            copy@ == self@,
    {
        proof {
            use_type_invariant(self);
        }
        let panes = self.panes();
        assert(panes@.len() == pane_views(panes@).len());
        PlotLayoutDefinition { panes }
    }
}

impl PlotLayoutDefinition {
    #[verifier::type_invariant]
    spec fn layout_valid(self) -> bool {
        self.panes@.len() > 0 && pane_keys_distinct(pane_views(self.panes@))
    }

    /// A layout of the given panes; refused when there are none, or when a key repeats (the
    /// first repeat is named).
    pub fn new(panes: Vec<PlotPaneDefinition>) -> (result: Result<Self, PresentationDefinitionError>)
        ensures
            panes@.len() == 0 ==> (result matches Err(error) && error@ == empty_layout_text()),
            panes@.len() > 0 && pane_keys_distinct(pane_views(panes@)) ==> (result matches Ok(layout)
                && layout@ == pane_views(panes@)),
            panes@.len() > 0 && !pane_keys_distinct(pane_views(panes@)) ==> (result matches Err(error)
                && exists|index: int|
                is_first_repeated_pane(pane_views(panes@), index) && error@ == repeated_pane_text(
                    pane_views(panes@)[index].key,
                )),
    {
        if panes.len() == 0 {
            return Err(
                PresentationDefinitionError::new("Plot layout must contain at least one pane".to_owned()),
            );
        }
        let ghost views = pane_views(panes@);
        let mut index: usize = 1;
        while index < panes.len()
            invariant
                1 <= index <= panes@.len(),
                views == pane_views(panes@),
                forall|j: int, i: int| 0 <= i < j < index ==> views[i].key != views[j].key,
            decreases panes.len() - index,
        {
            let mut earlier: usize = 0;
            while earlier < index
                invariant
                    earlier <= index < panes@.len(),
                    views == pane_views(panes@),
                    forall|j: int, i: int| 0 <= i < j < index ==> views[i].key != views[j].key,
                    forall|i: int| 0 <= i < earlier ==> views[i].key != views[index as int].key,
                decreases index - earlier,
            {
                if panes[earlier].key.0 == panes[index].key.0 {
                    assert(views[earlier as int] == panes@[earlier as int]@);
                    assert(views[index as int] == panes@[index as int]@);
                    let mut message = String::new();
                    push_str(&mut message, "Plot pane '");
                    push_str(&mut message, panes[index].key.as_str());
                    push_str(&mut message, "' is defined more than once");
                    assert(message@ =~= repeated_pane_text(views[index as int].key));
                    assert(is_first_repeated_pane(views, index as int));
                    return Err(PresentationDefinitionError::new(message));
                }
                earlier += 1;
            }
            index += 1;
        }
        Ok(PlotLayoutDefinition { panes })
    }

    /// The default layout: one pane `main` titled `Plot` with weight 1.
    pub fn default_layout() -> (layout: Self)
        ensures
            layout@.len() == 1,
            layout@[0].key == "main"@,
            layout@[0].title == "Plot"@,
            layout@[0].weight == SINGLE_ONE_BITS,
    {
        let pane = PlotPaneDefinition {
            key: PlotPaneKey("main".to_owned()),
            title: "Plot".to_owned(),
            weight: SINGLE_ONE_BITS,
        };
        let mut panes: Vec<PlotPaneDefinition> = Vec::new();
        panes.push(pane);
        PlotLayoutDefinition { panes }
    }

    /// Copies of the panes, in order.
    pub fn panes(&self) -> (panes: Vec<PlotPaneDefinition>)
        ensures
            pane_views(panes@) == self@,
    {
        let mut copies: Vec<PlotPaneDefinition> = Vec::new();
        let mut index: usize = 0;
        while index < self.panes.len()
            invariant
                index <= self.panes@.len(),
                copies@.len() == index,
                forall|k: int| 0 <= k < index ==> #[trigger] copies@[k]@ == self.panes@[k]@,
            decreases self.panes.len() - index,
        {
            copies.push(self.panes[index].duplicate());
            index += 1;
        }
        assert(pane_views(copies@) =~= pane_views(self.panes@));
        copies
    }

    /// Whether a pane has the key.
    pub fn contains(&self, key: &PlotPaneKey) -> (found: bool)
        ensures
            found == exists|i: int| 0 <= i < self@.len() && self@[i].key == key@,
    {
        let ghost views = pane_views(self.panes@);
        let mut index: usize = 0;
        while index < self.panes.len()
            invariant
                index <= self.panes@.len(),
                views == pane_views(self.panes@),
                forall|i: int| 0 <= i < index ==> views[i].key != key@,
            decreases self.panes.len() - index,
        {
            if self.panes[index].key.0 == key.0 {
                assert(views[index as int] == self.panes@[index as int]@);
                assert(views[index as int].key == key@);
                assert(self@[index as int].key == key@);
                return true;
            }
            index += 1;
        }
        false
    }
}

} // verus!

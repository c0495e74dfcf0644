//! The candidates being disambiguated and the presentation settings of
//! one session.  Both are validated when constructed, so a session never
//! starts from an empty candidate list or an oversized title.

use vstd::prelude::*;

verus! {

/// Longest accepted title, in code points: the embed-title limit of the
/// target chat platform.
pub const MAX_TITLE_CHARS: usize = 256;

/// A configuration the protocol rejects before anything is sent.
#[derive(Clone, Copy, PartialEq, Eq, Structural, Debug)]
pub enum ConfigError {
    /// The title is empty.
    EmptyTitle,
    /// The title is over `MAX_TITLE_CHARS` code points.
    TitleTooLong,
    /// There are no options to choose from.
    NoOptions,
    /// One of the option labels is empty.
    EmptyOption,
}

/// Accent colour of the presented message.
#[derive(Clone, Copy, PartialEq, Eq, Structural, Debug)]
pub struct RgbColour {
    pub red: u8,
    pub green: u8,
    pub blue: u8,
}

/// Small author byline shown above the title of the presented message.
#[derive(Clone, Debug)]
pub struct AuthorBadge {
    pub icon_url: String,
    pub name: String,
    pub link_url: String,
}

/// The ordered candidate labels being disambiguated.  Construction
/// guarantees at least one label and no empty labels; the order is the
/// display order.
#[derive(Clone, Debug)]
pub struct ChoiceSet {
    labels: Vec<String>,
}

impl ChoiceSet {
    /// The labels as sequences of characters, in display order.
    pub closed spec fn labels(&self) -> Seq<Seq<char>> {
        self.labels.deep_view()
    }

    /// What construction guarantees of every `ChoiceSet`.
    pub open spec fn well_formed(&self) -> bool {
        &&& self.labels().len() >= 1
        &&& forall|i: int| 0 <= i < self.labels().len() ==> (#[trigger] self.labels()[i]).len()
            > 0
    }

    /// Accepts the labels only when there is at least one and none is
    /// empty.
    pub fn new(options: Vec<String>) -> (r: Result<ChoiceSet, ConfigError>)
        ensures
            match r {
                Ok(c) => {
                    &&& c.labels() == options.deep_view()
                    &&& c.well_formed()
                },
                Err(ConfigError::NoOptions) => options@.len() == 0,
                Err(ConfigError::EmptyOption) => options@.len() > 0 && exists|i: int|
                    0 <= i < options@.len() && (#[trigger] options@[i])@.len() == 0,
                Err(_) => false,
            },
    {
        if options.len() == 0 {
            return Err(ConfigError::NoOptions);
        }
        let n = options.len();
        let mut i: usize = 0;
        while i < n
            invariant
                0 <= i <= n,
                n == options@.len(),
                forall|j: int| 0 <= j < i ==> (#[trigger] options@[j])@.len() > 0,
            decreases n - i,
        {
            if options[i].as_str().is_empty() {
                assert(options.deep_view()[i as int].len() == 0);
                return Err(ConfigError::EmptyOption);
            }
            assert(options@[i as int]@.len() > 0);
            i = i + 1;
        }
        proof {
            assert(forall|j: int|
                0 <= j < options@.len() ==> (#[trigger] options.deep_view()[j]).len() > 0);
        }
        Ok(ChoiceSet { labels: options })
    }

    /// How many options there are.
    pub fn len(&self) -> (n: usize)
        ensures
            n == self.labels().len(),
    {
        self.labels.len()
    }

    /// The label of the option at `i` (counting from 0).
    pub fn label_at(&self, i: usize) -> (s: &String)
        requires
            i < self.labels().len(),
        ensures
            s@ == self.labels()[i as int],
    {
        &self.labels[i]
    }
}

/// Presentation settings of one session, validated up front.
#[derive(Clone, Debug)]
pub struct PresentationConfig {
    title: String,
    colour: Option<RgbColour>,
    author_badge: Option<AuthorBadge>,
    edit_after_choice: bool,
}

impl PresentationConfig {
    /// The validated title.
    pub closed spec fn title(&self) -> Seq<char> {
        self.title@
    }

    /// The accent colour, if one was given.
    pub closed spec fn colour(&self) -> Option<RgbColour> {
        self.colour
    }

    /// The author byline, if one was given.
    pub closed spec fn author_badge(&self) -> Option<AuthorBadge> {
        self.author_badge
    }

    /// Whether the presented message is kept for a final edit (true) or
    /// deleted once a choice is made (false).
    pub closed spec fn edit_after_choice(&self) -> bool {
        self.edit_after_choice
    }

    /// What construction guarantees of every `PresentationConfig`.
    pub open spec fn well_formed(&self) -> bool {
        1 <= self.title().len() <= MAX_TITLE_CHARS
    }

    /// Accepts the settings only when the title is non-empty and within
    /// the platform's title limit.
    pub fn new(
        title: String,
        colour: Option<RgbColour>,
        author_badge: Option<AuthorBadge>,
        edit_after_choice: bool,
    ) -> (r: Result<PresentationConfig, ConfigError>)
        ensures
            match r {
                Ok(c) => {
                    &&& c.title() == title@
                    &&& c.colour() == colour
                    &&& c.author_badge() == author_badge
                    &&& c.edit_after_choice() == edit_after_choice
                    &&& c.well_formed()
                },
                Err(ConfigError::EmptyTitle) => title@.len() == 0,
                Err(ConfigError::TitleTooLong) => title@.len() > MAX_TITLE_CHARS,
                Err(_) => false,
            },
    {
        let chars = title.as_str().unicode_len();
        if chars == 0 {
            return Err(ConfigError::EmptyTitle);
        }
        if chars > MAX_TITLE_CHARS {
            return Err(ConfigError::TitleTooLong);
        }
        Ok(
            PresentationConfig {
                title,
                colour,
                author_badge,
                edit_after_choice,
            },
        )
    }

    /// The title as text.
    pub fn title_text(&self) -> (s: &String)
        ensures
            s@ == self.title(),
    {
        &self.title
    }

    /// The accent colour, if one was given.
    pub fn colour_value(&self) -> (c: Option<RgbColour>)
        ensures
            c == self.colour(),
    {
        self.colour
    }

    /// Whether the presented message is kept for a final edit.
    pub fn edits_after_choice(&self) -> (b: bool)
        ensures
            b == self.edit_after_choice(),
    {
        self.edit_after_choice
    }
}

} // verus!

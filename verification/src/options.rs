//! The fluent builder the lookup commands use to start a disambiguation:
//! title, options, colour, author byline and the edit flag are set one
//! by one, and building validates everything up front and hands back the
//! immutable candidate list and presentation settings a session runs on.

use vstd::prelude::*;

use crate::choice::{AuthorBadge, ChoiceSet, ConfigError, PresentationConfig, RgbColour,
    MAX_TITLE_CHARS};

verus! {

/// A disambiguation being configured.
pub struct Options {
    title: Option<String>,
    options: Vec<String>,
    colour: Option<RgbColour>,
    author: Option<AuthorBadge>,
    edit: bool,
}

impl Options {
    /// The title set so far.
    pub closed spec fn spec_title(&self) -> Option<Seq<char>> {
        match self.title {
            Some(t) => Some(t@),
            None => None,
        }
    }

    /// The option labels set so far.
    pub closed spec fn spec_options(&self) -> Seq<Seq<char>> {
        self.options.deep_view()
    }

    /// The accent colour set so far.
    pub closed spec fn spec_colour(&self) -> Option<RgbColour> {
        self.colour
    }

    /// The author byline set so far.
    pub closed spec fn spec_author(&self) -> Option<AuthorBadge> {
        self.author
    }

    /// Whether the presented message will be edited in place after the
    /// choice.
    pub closed spec fn spec_edit(&self) -> bool {
        self.edit
    }

    /// An empty configuration: no title, no options, platform-default
    /// colour, no byline, and deletion after the choice.
    pub fn new() -> (o: Options)
        ensures
            o.spec_title() is None,
            o.spec_options() == Seq::<Seq<char>>::empty(),
            o.spec_colour() is None,
            o.spec_author() is None,
            !o.spec_edit(),
    {
        let o = Options {
            title: None,
            options: Vec::new(),
            colour: None,
            author: None,
            edit: false,
        };
        proof {
            assert(o.spec_options() =~= Seq::<Seq<char>>::empty());
        }
        o
    }

    /// Sets the title shown above the numbered options.
    pub fn title(self, title: String) -> (o: Options)
        ensures
            o.spec_title() == Some(title@),
            o.spec_options() == self.spec_options(),
            o.spec_colour() == self.spec_colour(),
            o.spec_author() == self.spec_author(),
            o.spec_edit() == self.spec_edit(),
    {
        Options { title: Some(title), ..self }
    }

    /// Appends one option label.
    pub fn option(self, option: String) -> (o: Options)
        ensures
            o.spec_title() == self.spec_title(),
            o.spec_options() == self.spec_options().push(option@),
            o.spec_colour() == self.spec_colour(),
            o.spec_author() == self.spec_author(),
            o.spec_edit() == self.spec_edit(),
    {
        let mut options = self.options;
        options.push(option);
        let o = Options {
            title: self.title,
            options,
            colour: self.colour,
            author: self.author,
            edit: self.edit,
        };
        proof {
            assert(o.spec_options() =~= self.spec_options().push(option@));
        }
        o
    }

    /// Replaces the option labels wholesale.
    pub fn options(self, options: Vec<String>) -> (o: Options)
        ensures
            o.spec_title() == self.spec_title(),
            o.spec_options() == options.deep_view(),
            o.spec_colour() == self.spec_colour(),
            o.spec_author() == self.spec_author(),
            o.spec_edit() == self.spec_edit(),
    {
        Options { options, ..self }
    }

    /// Sets the accent colour of the presented message.
    pub fn colour(self, colour: RgbColour) -> (o: Options)
        ensures
            o.spec_title() == self.spec_title(),
            o.spec_options() == self.spec_options(),
            o.spec_colour() == Some(colour),
            o.spec_author() == self.spec_author(),
            o.spec_edit() == self.spec_edit(),
    {
        Options { colour: Some(colour), ..self }
    }

    /// Sets the author byline of the presented message.
    pub fn author(self, author: AuthorBadge) -> (o: Options)
        ensures
            o.spec_title() == self.spec_title(),
            o.spec_options() == self.spec_options(),
            o.spec_colour() == self.spec_colour(),
            o.spec_author() == Some(author),
            o.spec_edit() == self.spec_edit(),
    {
        Options { author: Some(author), ..self }
    }

    /// Keeps the presented message for an in-place edit after the
    /// choice, instead of deleting it.
    pub fn edit(self) -> (o: Options)
        ensures
            o.spec_title() == self.spec_title(),
            o.spec_options() == self.spec_options(),
            o.spec_colour() == self.spec_colour(),
            o.spec_author() == self.spec_author(),
            o.spec_edit(),
    {
        Options { edit: true, ..self }
    }

    /// Validates the configuration and hands back the immutable values
    /// a session runs on.  Fails fast, before anything is sent: the
    /// title must be set, non-empty and within the platform's limit,
    /// and there must be at least one non-empty option.
    pub fn build(self) -> (r: Result<(ChoiceSet, PresentationConfig), ConfigError>)
        ensures
            match r {
                Ok((choices, config)) => {
                    &&& choices.well_formed()
                    &&& config.well_formed()
                    &&& choices.labels() == self.spec_options()
                    &&& self.spec_title() == Some(config.title())
                    &&& config.colour() == self.spec_colour()
                    &&& config.author_badge() == self.spec_author()
                    &&& config.edit_after_choice() == self.spec_edit()
                },
                Err(ConfigError::EmptyTitle) => self.spec_title() is None
                    || self.spec_title()->0.len() == 0,
                Err(ConfigError::TitleTooLong) => self.spec_title() is Some
                    && self.spec_title()->0.len() > MAX_TITLE_CHARS,
                Err(ConfigError::NoOptions) => self.spec_options().len() == 0,
                Err(ConfigError::EmptyOption) => self.spec_options().len() > 0 && exists|i: int|
                    0 <= i < self.spec_options().len() && (#[trigger] self.spec_options()[
                        i
                    ]).len() == 0,
            },
    {
        let title = match self.title {
            Some(t) => t,
            None => {
                return Err(ConfigError::EmptyTitle);
            },
        };
        let config = match PresentationConfig::new(title, self.colour, self.author, self.edit) {
            Ok(c) => c,
            Err(e) => {
                return Err(e);
            },
        };
        let choices = match ChoiceSet::new(self.options) {
            Ok(c) => c,
            Err(e) => {
                proof {
                    if e is EmptyOption {
                        let j = choose|j: int|
                            0 <= j < self.options@.len() && (#[trigger] self.options@[j])@.len()
                                == 0;
                        assert(self.spec_options()[j].len() == 0);
                    }
                }
                return Err(e);
            },
        };
        Ok((choices, config))
    }
}

} // verus!

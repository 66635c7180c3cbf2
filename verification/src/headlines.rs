//! The state of the headlines reader: its settings, the cards it shows and
//! what the events of its window do to them.

use vstd::prelude::*;
use vstd::string::*;
use crate::article::{Article, ArticleView, NewsAPIResponse};
use crate::error::{option_text, NewsApiError};

verus! {

/// The settings that the reader keeps between runs.
#[derive(Debug, Clone, PartialEq, Eq)]
pub struct HeadlineConfig {
    pub dark_mode: bool,
    pub api_key: String,
}

/// A `HeadlineConfig` with its key as a sequence of characters.
pub struct Settings {
    pub dark_mode: bool,
    pub api_key: Seq<char>,
}

impl View for HeadlineConfig {
    type V = Settings;

    open spec fn view(&self) -> Settings {
        Settings { dark_mode: self.dark_mode, api_key: self.api_key@ }
    }
}

/// The settings to start with: the stored ones, or light mode and no key.
pub open spec fn settings_or_default(stored: Option<HeadlineConfig>) -> Settings {
    match stored {
        Some(config) => config@,
        None => Settings { dark_mode: false, api_key: Seq::<char>::empty() },
    }
}

/// The colour in which titles are written.
#[derive(Clone, Copy, Debug, PartialEq, Eq, Structural)]
pub enum Ink {
    White,
    Black,
}

/// The colour of titles: white on the dark ground, black on the light
/// one.
pub open spec fn ink_of(dark_mode: bool) -> Ink {
    if dark_mode {
        Ink::White
    } else {
        Ink::Black
    }
}

impl HeadlineConfig {
    /// The colour of titles in the theme of these settings.
    pub fn ink(&self) -> (ink: Ink)
        ensures
            ink == ink_of(self.dark_mode),
    {
        if self.dark_mode {
            Ink::White
        } else {
            Ink::Black
        }
    }
}

impl Default for HeadlineConfig {
    /// Light mode and no key.
    fn default() -> (config: HeadlineConfig)
        ensures
            config@ == (Settings { dark_mode: false, api_key: Seq::<char>::empty() }),
    {
        HeadlineConfig { dark_mode: false, api_key: String::new() }
    }
}

/// One headline as the reader shows it.
#[derive(Debug, Clone, PartialEq, Eq)]
pub struct NewCardData {
    pub title: String,
    pub description: Option<String>,
    pub url: String,
}

impl View for NewCardData {
    type V = ArticleView;

    open spec fn view(&self) -> ArticleView {
        ArticleView {
            title: self.title@,
            url: self.url@,
            description: option_text(self.description),
        }
    }
}

/// The cards of a list, each by its view, in the order of the list.
pub open spec fn card_views(cards: Seq<NewCardData>) -> Seq<ArticleView> {
    Seq::new(cards.len(), |i: int| cards[i]@)
}

/// The description that a card shows: the article's own, or three dots
/// where it has none.
pub open spec fn shown_description(description: Option<Seq<char>>) -> Seq<char> {
    match description {
        Some(text) => text,
        None => "..."@,
    }
}

/// The card for an article: its title and address, and a description in
/// any case.
pub open spec fn card_of(article: ArticleView) -> ArticleView {
    ArticleView {
        title: article.title,
        url: article.url,
        description: Some(shown_description(article.description)),
    }
}

/// The cards for a list of articles: one for each, in order.
pub open spec fn cards_of(articles: Seq<ArticleView>) -> Seq<ArticleView> {
    Seq::new(articles.len(), |i: int| card_of(articles[i]))
}

impl NewCardData {
    /// The card for an article.
    pub fn from_article(article: &Article) -> (card: NewCardData)
        ensures
            card@ == card_of(article@),
    {
        let description = match &article.description {
            Some(text) => text.clone(),
            None => "...".to_owned(),
        };
        NewCardData {
            title: article.title.clone(),
            description: Some(description),
            url: article.url.clone(),
        }
    }

    /// The title line of the card: a mark, a space and the title.
    pub fn heading(&self) -> (line: String)
        ensures
            line@ == "\u{25B6} "@ + self@.title,
    {
        "\u{25B6} ".to_owned().concat(self.title.as_str())
    }

    /// The description line of the card.
    pub fn summary(&self) -> (line: String)
        ensures
            line@ == shown_description(self@.description),
    {
        match &self.description {
            Some(text) => text.clone(),
            None => "...".to_owned(),
        }
    }
}

/// What the list shows of one card.
#[derive(Debug, Clone, PartialEq, Eq)]
pub struct Face {
    /// The title line.
    pub heading: String,
    /// The colour of the title line.
    pub ink: Ink,
    /// The description line.
    pub summary: String,
    /// The address behind the link.
    pub url: String,
}

/// A `Face` with its texts as sequences of characters.
pub struct FaceView {
    pub heading: Seq<char>,
    pub ink: Ink,
    pub summary: Seq<char>,
    pub url: Seq<char>,
}

impl View for Face {
    type V = FaceView;

    open spec fn view(&self) -> FaceView {
        FaceView { heading: self.heading@, ink: self.ink, summary: self.summary@, url: self.url@ }
    }
}

/// The faces of a list, each by its view, in the order of the list.
pub open spec fn face_views(faces: Seq<Face>) -> Seq<FaceView> {
    Seq::new(faces.len(), |i: int| faces[i]@)
}

/// The face of a card: a mark, a space and the title in the ink of the
/// theme, the description or three dots, and the address.
pub open spec fn face_of(card: ArticleView, dark_mode: bool) -> FaceView {
    FaceView {
        heading: "\u{25B6} "@ + card.title,
        ink: ink_of(dark_mode),
        summary: shown_description(card.description),
        url: card.url,
    }
}

/// The faces of a list of cards: one for each, in order.
pub open spec fn faces_of(cards: Seq<ArticleView>, dark_mode: bool) -> Seq<FaceView> {
    Seq::new(cards.len(), |i: int| face_of(cards[i], dark_mode))
}

/// Adds to `articles` the cards for what a fetch brought, in its order,
/// and says whether it brought anything: a fetch that failed adds nothing.
pub fn fetch_news(
    fetched: Result<NewsAPIResponse, NewsApiError>,
    articles: &mut Vec<NewCardData>,
) -> (added: bool)
    ensures
        added == (fetched is Ok),
        match fetched {
            Ok(response) => card_views(final(articles)@) == card_views(old(articles)@) + cards_of(
                response@.articles,
            ),
            Err(_) => *final(articles) == *old(articles),
        },
{
    match fetched {
        Ok(response) => {
            let ghost before = articles@;
            let mut i: usize = 0;
            while i < response.articles.len()
                invariant
                    i <= response.articles.len(),
                    articles.len() == before.len() + i,
                    forall|k: int| 0 <= k < before.len() ==> articles[k] == before[k],
                    forall|k: int|
                        0 <= k < i ==> articles[before.len() + k]@ == card_of(
                            #[trigger] response.articles[k]@,
                        ),
                decreases response.articles.len() - i,
            {
                articles.push(NewCardData::from_article(&response.articles[i]));
                i += 1;
            }
            assert(card_views(articles@) =~= card_views(before) + cards_of(response@.articles));
            true
        },
        Err(_) => false,
    }
}

/// Which of its two screens the reader shows.
#[derive(Clone, Copy, Debug, PartialEq, Eq, Structural)]
pub enum Screen {
    /// The window that asks for the key.
    Configuration,
    /// The list of headlines.
    News,
}

/// The reader: its cards, its settings, and whether it has a key to work
/// with.
#[derive(Debug, Clone, PartialEq, Eq)]
pub struct Headlines {
    articles: Vec<NewCardData>,
    pub config: HeadlineConfig,
    pub api_key_initialized: bool,
}

/// A `Headlines` with its texts as sequences of characters.
pub struct Reader {
    pub articles: Seq<ArticleView>,
    pub config: Settings,
    pub api_key_initialized: bool,
}

impl View for Headlines {
    type V = Reader;

    closed spec fn view(&self) -> Reader {
        Reader {
            articles: card_views(self.articles@),
            config: self.config@,
            api_key_initialized: self.api_key_initialized,
        }
    }
}

impl Default for Headlines {
    /// A reader without cards, settings or key.
    fn default() -> (reader: Headlines)
        ensures
            reader@ == (Reader {
                articles: Seq::<ArticleView>::empty(),
                config: Settings { dark_mode: false, api_key: Seq::<char>::empty() },
                api_key_initialized: false,
            }),
    {
        let reader = Headlines {
            articles: Vec::new(),
            config: HeadlineConfig::default(),
            api_key_initialized: false,
        };
        assert(card_views(reader.articles@) =~= Seq::<ArticleView>::empty());
        reader
    }
}

impl Headlines {
    /// A reader with the settings that were stored, or with the default ones
    /// where none could be loaded, and no cards yet. It has a key to work
    /// with exactly if the settings hold one that is not empty.
    pub fn new(stored: Option<HeadlineConfig>) -> (reader: Headlines)
        ensures
            reader@ == (Reader {
                articles: Seq::<ArticleView>::empty(),
                config: settings_or_default(stored),
                api_key_initialized: settings_or_default(stored).api_key.len() > 0,
            }),
    {
        let config = match stored {
            Some(config) => config,
            None => HeadlineConfig::default(),
        };
        let reader = Headlines {
            api_key_initialized: !config.api_key.as_str().is_empty(),
            articles: Vec::new(),
            config,
        };
        assert(card_views(reader.articles@) =~= Seq::<ArticleView>::empty());
        reader
    }

    /// The reader with the cards for what the first fetch brought.
    pub fn init(self, fetched: Result<NewsAPIResponse, NewsApiError>) -> (reader: Headlines)
        ensures
            reader@.config == self@.config,
            reader@.api_key_initialized == self@.api_key_initialized,
            reader@.articles == match fetched {
                Ok(response) => self@.articles + cards_of(response@.articles),
                Err(_) => self@.articles,
            },
    {
        let mut reader = self;
        fetch_news(fetched, &mut reader.articles);
        reader
    }

    /// The name of the application.
    pub fn name() -> (name: &'static str)
        ensures
            name@ == "News Headlines"@,
    {
        "News Headlines"
    }

    /// The cards, in the order in which they are shown.
    pub fn articles(&self) -> (cards: &Vec<NewCardData>)
        ensures
            card_views(cards@) == self@.articles,
    {
        &self.articles
    }

    /// The screen to show: the list once there is a key, else the window
    /// that asks for one.
    pub fn screen(&self) -> (screen: Screen)
        ensures
            screen == if self@.api_key_initialized {
                Screen::News
            } else {
                Screen::Configuration
            },
    {
        if self.api_key_initialized {
            Screen::News
        } else {
            Screen::Configuration
        }
    }

    /// What the top panel does to the reader: a click on the button for
    /// the theme switches between dark and light mode, and nothing else
    /// changes anything.
    pub fn render_top_panel(&mut self, theme_clicked: bool)
        ensures
            final(self)@ == (Reader {
                config: Settings {
                    dark_mode: old(self)@.config.dark_mode != theme_clicked,
                    ..old(self)@.config
                },
                ..old(self)@
            }),
    {
        if theme_clicked {
            self.config.dark_mode = !self.config.dark_mode;
        }
    }

    /// What the window that asks for the key does to the reader. When the
    /// field for the key lost the focus with the enter key pressed, the key
    /// counts as given, and the settings that come back are to be stored;
    /// else nothing changes and nothing is to be stored.
    pub fn render_config(&mut self, lost_focus: bool, enter_pressed: bool) -> (store: Option<
        HeadlineConfig,
    >)
        ensures
            if lost_focus && enter_pressed {
                &&& final(self)@ == (Reader { api_key_initialized: true, ..old(self)@ })
                &&& store matches Some(config) && config@ == old(self)@.config
            } else {
                &&& *final(self) == *old(self)
                &&& store is None
            },
    {
        if lost_focus && enter_pressed {
            self.api_key_initialized = true;
            Some(
                HeadlineConfig {
                    dark_mode: self.config.dark_mode,
                    api_key: self.config.api_key.clone(),
                },
            )
        } else {
            None
        }
    }

    /// What the list shows: one face for each card, in order, with the
    /// title in the ink of the theme.
    pub fn render_news_cards(&self) -> (faces: Vec<Face>)
        ensures
            face_views(faces@) == faces_of(self@.articles, self@.config.dark_mode),
    {
        let ink = self.config.ink();
        let mut faces: Vec<Face> = Vec::new();
        let mut i: usize = 0;
        while i < self.articles.len()
            invariant
                i <= self.articles.len(),
                faces.len() == i,
                ink == ink_of(self.config.dark_mode),
                forall|k: int|
                    0 <= k < i ==> faces[k]@ == face_of(
                        #[trigger] self.articles[k]@,
                        self.config.dark_mode,
                    ),
            decreases self.articles.len() - i,
        {
            let card = &self.articles[i];
            faces.push(
                Face { heading: card.heading(), ink, summary: card.summary(), url: card.url.clone() },
            );
            i += 1;
        }
        assert(face_views(faces@) =~= faces_of(self@.articles, self@.config.dark_mode));
        faces
    }
}

} // verus!

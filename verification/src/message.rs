//! The message that the relay carries, and what the relay can see of it.
//!
//! A message is made and owned by the `repomon` crate. The relay hands it
//! on whole: it reads the category and the display form, and nothing else.

use repomon::Message;
use vstd::prelude::*;

verus! {

/// The message type of `repomon`, carried through as it is.
#[verifier::external_type_specification]
#[verifier::external_body]
pub struct ExMessage(Message);

/// What a message is about.
#[derive(Clone, Copy, Debug, PartialEq, Eq, Structural)]
pub enum Category {
    /// An informational message.
    Info,
    /// The local branch is ahead of the remote.
    Ahead,
    /// The local branch is behind the remote.
    Behind,
    /// The local branch is level with the remote.
    UpToDate,
}

/// A remote of a repository, as a mathematical value.
pub ghost struct RemoteView {
    pub name: Seq<char>,
    pub url: Seq<char>,
}

/// A monitored branch, as a mathematical value.
pub ghost struct BranchView {
    pub name: Seq<char>,
    pub interval: Seq<char>,
    pub remotes: Seq<Seq<char>>,
}

/// A message as a mathematical value: its four fields.
#[verifier::ext_equal]
pub ghost struct MessageView {
    /// The sixteen bytes of the identifier.
    pub uuid: Seq<u8>,
    pub category: Category,
    pub repo: Seq<char>,
    /// The text for each remote of each branch.
    pub messages: Map<BranchView, Map<RemoteView, Seq<char>>>,
}

impl MessageView {
    /// The message that stands in where no other is at hand: the nil
    /// identifier, the category `Info`, no repository name and no text.
    pub open spec fn placeholder() -> MessageView {
        MessageView {
            uuid: Seq::new(16, |i: int| 0u8),
            category: Category::Info,
            repo: Seq::empty(),
            messages: Map::empty(),
        }
    }
}

/// The fields of a message.
pub uninterp spec fn message_view(message: Message) -> MessageView;

/// The display form of a message.
pub uninterp spec fn display_text(message: MessageView) -> Seq<char>;

/// `Message::default()` of repomon: every field has its default value,
/// which is the nil identifier, `Category::Info`, the empty string and the
/// empty map.
#[verifier::external_body]
pub(crate) fn default_message() -> (message: Message)
    ensures
        message_view(message) == MessageView::placeholder(),
{
    Message::default()
}

/// The getter `Message::category` of repomon, with the category given in
/// this library's own enum, variant for variant.
#[verifier::external_body]
pub(crate) fn category_of(message: &Message) -> (category: Category)
    ensures
        category == message_view(*message).category,
{
    match *message.category() {
        repomon::Category::Info => Category::Info,
        repomon::Category::Ahead => Category::Ahead,
        repomon::Category::Behind => Category::Behind,
        repomon::Category::UpToDate => Category::UpToDate,
    }
}

/// The `Display` form of a repomon message. It is built from the fields
/// alone, so equal fields give equal text; what the text is, is left to
/// repomon.
#[verifier::external_body]
pub(crate) fn display_of(message: &Message) -> (text: String)
    ensures
        text@ == display_text(message_view(*message)),
{
    format!("{}", message)
}

} // verus!

//! The chats of one front end, in the order in which they were opened, and
//! the one that is on screen.

use std::sync::Arc;
use vstd::prelude::*;

use crate::chat::{Chat, ChatState, ChatStateView, ChatView};
use crate::chat_message::{ChatMessage, ChatMessageView, ChatRole};
use crate::command_response::{CommandResponse, CommandResponseView};
use crate::identity::is_random_uuid;

verus! {

/// The position of the first chat of `chats` that goes by `uuid`.
pub open spec fn first_with_uuid<R>(chats: Seq<ChatView<R>>, uuid: u128) -> Option<int>
    decreases chats.len(),
{
    if chats.len() == 0 {
        None
    } else {
        match first_with_uuid(chats.drop_last(), uuid) {
            Some(at) => Some(at),
            None => if chats.last().uuid == uuid {
                Some(chats.len() - 1)
            } else {
                None
            },
        }
    }
}

/// [`first_with_uuid`] finds a chat that goes by `uuid`, with none such before
/// it, and finds nothing only where no chat goes by `uuid`.
pub proof fn lemma_first_with_uuid<R>(chats: Seq<ChatView<R>>, uuid: u128)
    ensures
        match first_with_uuid(chats, uuid) {
            Some(at) => {
                &&& 0 <= at < chats.len()
                &&& chats[at].uuid == uuid
                &&& forall|j: int| 0 <= j < at ==> chats[j].uuid != uuid
            },
            None => forall|j: int| 0 <= j < chats.len() ==> chats[j].uuid != uuid,
        },
    decreases chats.len(),
{
    if chats.len() > 0 {
        let front = chats.drop_last();
        lemma_first_with_uuid(front, uuid);
        assert(forall|j: int| 0 <= j < front.len() ==> front[j] == chats[j]);
    }
}

/// A position that holds a chat that goes by `uuid`, with none such before it,
/// is the one that [`first_with_uuid`] finds.
pub proof fn lemma_first_with_uuid_at<R>(chats: Seq<ChatView<R>>, uuid: u128, at: int)
    requires
        0 <= at < chats.len(),
        chats[at].uuid == uuid,
        forall|j: int| 0 <= j < at ==> chats[j].uuid != uuid,
    ensures
        first_with_uuid(chats, uuid) == Some(at),
{
    lemma_first_with_uuid(chats, uuid);
}

/// What a [`Registry`] holds, as mathematical values.
pub struct RegistryView<R> {
    /// The chats, in the order in which they were opened
    pub chats: Seq<ChatView<R>>,
    /// The position of the chat that is on screen
    pub current: Option<int>,
    /// Whether a response has changed a chat since the screen was last drawn
    pub dirty: bool,
    /// What new chats are opened on
    pub repository: R,
}

impl<R> RegistryView<R> {
    /// Whether the registry has a chat on screen exactly if it has any chat.
    pub open spec fn valid(self) -> bool {
        match self.current {
            Some(at) => 0 <= at < self.chats.len(),
            None => self.chats.len() == 0,
        }
    }

    /// A registry without chats.
    pub open spec fn empty(repository: R) -> RegistryView<R> {
        RegistryView { chats: Seq::empty(), current: None, dirty: false, repository }
    }

    /// The position of the chat that goes by `uuid`: of the first one, should
    /// there be several.
    pub open spec fn find(self, uuid: u128) -> Option<int> {
        first_with_uuid(self.chats, uuid)
    }

    /// The registry with `chat` in the place of the chat at `at`.
    pub open spec fn with_chat(self, at: int, chat: ChatView<R>) -> RegistryView<R> {
        RegistryView { chats: self.chats.update(at, chat), ..self }
    }

    /// The registry with `chat` as its last chat. The first chat of a registry
    /// goes on screen; a later one leaves the screen as it is.
    pub open spec fn add_chat(self, chat: ChatView<R>) -> RegistryView<R> {
        RegistryView {
            chats: self.chats.push(chat),
            current: if self.chats.len() == 0 {
                Some(0)
            } else {
                self.current
            },
            ..self
        }
    }

    /// The registry with a new chat, called `name`, under `uuid`.
    pub open spec fn create(self, name: Seq<char>, uuid: u128) -> RegistryView<R> {
        self.add_chat(ChatView { name, ..ChatView::fresh(uuid, self.repository) })
    }

    /// The registry after the chat `uuid` was given the display name `name`.
    /// Without such a chat nothing changes.
    pub open spec fn rename(self, uuid: u128, name: Seq<char>) -> RegistryView<R> {
        match self.find(uuid) {
            Some(at) => self.with_chat(at, ChatView { name, ..self.chats[at] }),
            None => self,
        }
    }

    /// The registry after the chat `uuid` was told the branch that its agent
    /// works on. Without such a chat nothing changes.
    pub open spec fn rename_branch(self, uuid: u128, name: Seq<char>) -> RegistryView<R> {
        match self.find(uuid) {
            Some(at) => self.with_chat(at, ChatView { branch_name: Some(name), ..self.chats[at] }),
            None => self,
        }
    }

    /// The registry after the chat `uuid` has gone over to `state`. Without
    /// such a chat nothing changes.
    pub open spec fn transition(self, uuid: u128, state: ChatStateView) -> RegistryView<R> {
        match self.find(uuid) {
            Some(at) => self.with_chat(at, ChatView { state, ..self.chats[at] }),
            None => self,
        }
    }

    /// The registry after the chat `uuid` has taken in `message`. Without such
    /// a chat nothing changes.
    pub open spec fn add_message(self, uuid: u128, message: ChatMessageView) -> RegistryView<R> {
        match self.find(uuid) {
            Some(at) => self.with_chat(at, self.chats[at].add_message(message)),
            None => self,
        }
    }

    /// Whether the chat `uuid`, if there is one, can count `message` among
    /// its new messages where it has to.
    pub open spec fn has_room(self, uuid: u128, message: ChatMessageView) -> bool {
        match self.find(uuid) {
            Some(at) => self.chats[at].counts_as_new(message)
                ==> self.chats[at].new_message_count < usize::MAX,
            None => true,
        }
    }

    /// The registry with the next chat on screen: the one after the current
    /// chat, and the first one after the last. With fewer than two chats
    /// nothing changes.
    pub open spec fn select_next(self) -> RegistryView<R> {
        match self.current {
            Some(at) if self.chats.len() > 1 => RegistryView {
                current: if at + 1 == self.chats.len() {
                    Some(0)
                } else {
                    Some(at + 1)
                },
                ..self
            },
            _ => self,
        }
    }

    /// The registry without the chat `uuid`. The chat on screen stays on
    /// screen; where it is the one that goes, the chat after it comes on
    /// screen, the first one if it was the last, and none if none is left.
    /// Without such a chat nothing changes.
    pub open spec fn delete(self, uuid: u128) -> RegistryView<R> {
        match (self.find(uuid), self.current) {
            (Some(at), Some(current)) => {
                let chats = self.chats.remove(at);
                RegistryView {
                    chats,
                    current: if chats.len() == 0 {
                        None
                    } else if at < current {
                        Some(current - 1)
                    } else if current == chats.len() {
                        Some(0)
                    } else {
                        Some(current)
                    },
                    ..self
                }
            },
            _ => self,
        }
    }

    /// What `response` does to the chat it is for.
    pub open spec fn apply(self, response: CommandResponseView) -> RegistryView<R> {
        match response {
            CommandResponseView::Chat(uuid, message) => self.add_message(uuid, message),
            CommandResponseView::Activity(uuid, text) => self.transition(
                uuid,
                ChatStateView::LoadingWithMessage(text),
            ),
            CommandResponseView::RenameChat(uuid, name) => self.rename(uuid, name),
            CommandResponseView::RenameBranch(uuid, name) => self.rename_branch(uuid, name),
            CommandResponseView::BackendMessage(uuid, text) => self.add_message(
                uuid,
                ChatMessageView::plain(ChatRole::System, text),
            ),
            CommandResponseView::Completed(uuid) => self.transition(uuid, ChatStateView::Ready),
        }
    }

    /// Whether the chat that `response` is for can count the message that
    /// `response` brings.
    pub open spec fn can_apply(self, response: CommandResponseView) -> bool {
        match response {
            CommandResponseView::Chat(uuid, message) => self.has_room(uuid, message),
            CommandResponseView::BackendMessage(uuid, text) => self.has_room(
                uuid,
                ChatMessageView::plain(ChatRole::System, text),
            ),
            _ => true,
        }
    }

    /// The registry after `response` has arrived. A response for a chat that
    /// the registry does not hold is dropped; any other is applied to its
    /// chat, and the screen is then due to be drawn again.
    pub open spec fn dispatch(self, response: CommandResponseView) -> RegistryView<R> {
        if self.find(response.uuid()) is Some {
            RegistryView { dirty: true, ..self.apply(response) }
        } else {
            self
        }
    }
}

impl<R> RegistryView<R> {
    /// A response reaches the chat that it names and no other: every other
    /// chat stays as it was, no chat comes or goes or changes its identity,
    /// and the chat on screen stays on screen.
    pub proof fn lemma_dispatch_reaches_one_chat(self, response: CommandResponseView)
        ensures
            ({
                let after = self.dispatch(response);
                &&& after.chats.len() == self.chats.len()
                &&& after.current == self.current
                &&& after.repository == self.repository
                &&& forall|j: int|
                    0 <= j < self.chats.len() ==> (#[trigger] after.chats[j]).uuid
                        == self.chats[j].uuid
                &&& forall|j: int|
                    0 <= j < self.chats.len() && self.find(response.uuid()) != Some(j)
                        ==> #[trigger] after.chats[j] == self.chats[j]
                &&& self.find(response.uuid()) is None ==> after == self
            }),
    {
        lemma_first_with_uuid(self.chats, response.uuid());
    }

    /// Opening a chat, selecting the next one, deleting one and taking in a
    /// response each leave a registry in order: it has a chat on screen
    /// exactly if it has any chat.
    pub proof fn lemma_operations_keep_valid(
        self,
        chat: ChatView<R>,
        uuid: u128,
        response: CommandResponseView,
    )
        requires
            self.valid(),
        ensures
            self.add_chat(chat).valid(),
            self.select_next().valid(),
            self.delete(uuid).valid(),
            self.dispatch(response).valid(),
    {
        lemma_first_with_uuid(self.chats, uuid);
        lemma_first_with_uuid(self.chats, response.uuid());
    }
}

/// The chats of one front end and the one that is on screen.
pub struct Registry<R> {
    chats: Vec<Chat<R>>,
    current: Option<usize>,
    dirty: bool,
    repository: Arc<R>,
}

impl<R> View for Registry<R> {
    type V = RegistryView<R>;

    closed spec fn view(&self) -> RegistryView<R> {
        RegistryView {
            chats: self.chats@.map_values(|chat: Chat<R>| chat@),
            current: match self.current {
                Some(at) => Some(at as int),
                None => None,
            },
            dirty: self.dirty,
            repository: *self.repository,
        }
    }
}

/// A second handle on the repository: `Arc::clone`.
///
/// Not verified. The contract claims that the new handle leads to the same
/// value as the one it was made from.
#[verifier::external_body]
fn share<R>(repository: &Arc<R>) -> (shared: Arc<R>)
    ensures
        *shared == **repository,
{
    Arc::clone(repository)
}

impl<R> Registry<R> {
    /// Whether the registry is in order: see [`RegistryView::valid`].
    pub open spec fn wf(&self) -> bool {
        self@.valid()
    }

    /// A registry without chats, whose chats will be opened on `repository`.
    pub fn new(repository: Arc<R>) -> (registry: Registry<R>)
        ensures
            registry.wf(),
            registry@ == RegistryView::empty(*repository),
    {
        let registry = Registry { chats: Vec::new(), current: None, dirty: false, repository };
        assert(registry@.chats =~= Seq::empty());
        registry
    }

    /// A registry with one chat on `repository`, which is on screen.
    pub fn from_repository(repository: Arc<R>) -> (registry: Registry<R>)
        ensures
            registry.wf(),
            registry@.chats.len() == 1,
            registry@ == RegistryView::empty(*repository).add_chat(
                ChatView::fresh(registry@.chats[0].uuid, *repository),
            ),
            is_random_uuid(registry@.chats[0].uuid),
    {
        let mut registry = Registry::new(share(&repository));
        let chat = Chat::from_repository(repository);
        registry.add_chat(chat);
        registry
    }

    pub fn len(&self) -> (len: usize)
        ensures
            len == self@.chats.len(),
    {
        self.chats.len()
    }

    pub fn is_empty(&self) -> (b: bool)
        ensures
            b == (self@.chats.len() == 0),
    {
        self.chats.len() == 0
    }

    /// The chats, in the order in which they were opened.
    pub fn chats(&self) -> (chats: &Vec<Chat<R>>)
        ensures
            chats@.map_values(|chat: Chat<R>| chat@) == self@.chats,
    {
        &self.chats
    }

    /// The position of the chat that is on screen.
    pub fn current_index(&self) -> (current: Option<usize>)
        ensures
            current is Some == self@.current is Some,
            current matches Some(at) ==> self@.current == Some(at as int),
    {
        self.current
    }

    /// The position of the first chat that goes by `uuid`.
    pub fn position(&self, uuid: u128) -> (found: Option<usize>)
        ensures
            found is Some == self@.find(uuid) is Some,
            found matches Some(at) ==> at < self@.chats.len() && self@.find(uuid) == Some(
                at as int,
            ),
    {
        let mut at: usize = 0;
        while at < self.chats.len()
            invariant
                at <= self.chats.len(),
                forall|j: int| 0 <= j < at ==> (#[trigger] self@.chats[j]).uuid != uuid,
            decreases self.chats.len() - at,
        {
            if self.chats[at].uuid == uuid {
                proof {
                    lemma_first_with_uuid_at(self@.chats, uuid, at as int);
                }
                return Some(at);
            }
            at += 1;
        }
        proof {
            lemma_first_with_uuid(self@.chats, uuid);
        }
        None
    }

    /// The chat that goes by `uuid`.
    pub fn find(&self, uuid: u128) -> (found: Option<&Chat<R>>)
        ensures
            found is Some == self@.find(uuid) is Some,
            found matches Some(chat) ==> chat@ == self@.chats[self@.find(uuid).unwrap()],
    {
        match self.position(uuid) {
            Some(at) => Some(&self.chats[at]),
            None => None,
        }
    }

    /// Takes `chat` in as the last chat, and returns its identity. The first
    /// chat of a registry goes on screen.
    pub fn add_chat(&mut self, chat: Chat<R>) -> (uuid: u128)
        requires
            old(self).wf(),
        ensures
            final(self).wf(),
            final(self)@ == old(self)@.add_chat(chat@),
            uuid == chat@.uuid,
    {
        let uuid = chat.uuid;
        if self.chats.len() == 0 {
            self.current = Some(0);
        }
        self.chats.push(chat);
        assert(self@.chats =~= old(self)@.chats.push(chat@));
        uuid
    }

    /// Opens a chat called `name` under a random identity, which it returns.
    pub fn create(&mut self, name: &str) -> (uuid: u128)
        requires
            old(self).wf(),
        ensures
            final(self).wf(),
            final(self)@ == old(self)@.create(name@, uuid),
            is_random_uuid(uuid),
    {
        let mut chat = Chat::from_repository(share(&self.repository));
        chat.with_name(name);
        self.add_chat(chat)
    }

    /// Gives the chat `uuid` the display name `name`.
    pub fn rename(&mut self, uuid: u128, name: &str)
        requires
            old(self).wf(),
        ensures
            final(self).wf(),
            final(self)@ == old(self)@.rename(uuid, name@),
    {
        if let Some(at) = self.position(uuid) {
            let chat = &mut self.chats[at];
            chat.name = name.to_owned();
            assert(self@.chats =~= old(self)@.rename(uuid, name@).chats);
        }
    }

    /// Tells the chat `uuid` the branch that its agent works on.
    pub fn rename_branch(&mut self, uuid: u128, name: &str)
        requires
            old(self).wf(),
        ensures
            final(self).wf(),
            final(self)@ == old(self)@.rename_branch(uuid, name@),
    {
        if let Some(at) = self.position(uuid) {
            let chat = &mut self.chats[at];
            chat.branch_name = Some(name.to_owned());
            assert(self@.chats =~= old(self)@.rename_branch(uuid, name@).chats);
        }
    }

    /// Puts the chat `uuid` into `state`.
    pub fn transition(&mut self, uuid: u128, state: ChatState)
        requires
            old(self).wf(),
        ensures
            final(self).wf(),
            final(self)@ == old(self)@.transition(uuid, state@),
    {
        if let Some(at) = self.position(uuid) {
            let chat = &mut self.chats[at];
            chat.state = state;
            assert(self@.chats =~= old(self)@.transition(uuid, state@).chats);
        }
    }

    /// Hands `message` to the chat `uuid`.
    pub fn add_message(&mut self, uuid: u128, message: ChatMessage)
        requires
            old(self).wf(),
            old(self)@.has_room(uuid, message@),
        ensures
            final(self).wf(),
            final(self)@ == old(self)@.add_message(uuid, message@),
    {
        if let Some(at) = self.position(uuid) {
            let chat = &mut self.chats[at];
            chat.add_message(message);
            assert(self@.chats =~= old(self)@.add_message(uuid, message@).chats);
        }
    }

    /// Puts the next chat on screen, the first one after the last.
    pub fn select_next(&mut self)
        requires
            old(self).wf(),
        ensures
            final(self).wf(),
            final(self)@ == old(self)@.select_next(),
    {
        if let Some(at) = self.current {
            let len = self.chats.len();
            if len > 1 {
                self.current = Some(
                    if at + 1 == len {
                        0
                    } else {
                        at + 1
                    },
                );
            }
        }
    }

    /// Removes the chat `uuid`.
    pub fn delete(&mut self, uuid: u128)
        requires
            old(self).wf(),
        ensures
            final(self).wf(),
            final(self)@ == old(self)@.delete(uuid),
    {
        if let Some(at) = self.position(uuid) {
            if let Some(current) = self.current {
                self.chats.remove(at);
                let len = self.chats.len();
                self.current = if len == 0 {
                    None
                } else if at < current {
                    Some(current - 1)
                } else if current == len {
                    Some(0)
                } else {
                    Some(current)
                };
                assert(self@.chats =~= old(self)@.chats.remove(at as int));
            }
        }
    }

    /// The chat that is on screen.
    pub fn current(&self) -> (chat: &Chat<R>)
        requires
            self.wf(),
            self@.chats.len() > 0,
        ensures
            chat@ == self@.chats[self@.current.unwrap()],
    {
        match self.current {
            Some(at) => &self.chats[at],
            None => &self.chats[0],
        }
    }

    /// The chat that is on screen, to be changed in place.
    pub fn current_mut(&mut self) -> (chat: &mut Chat<R>)
        requires
            old(self).wf(),
            old(self)@.chats.len() > 0,
        ensures
            chat@ == old(self)@.chats[old(self)@.current.unwrap()],
            final(self)@ == old(self)@.with_chat(old(self)@.current.unwrap(), final(chat)@),
            final(self).wf(),
    {
        let at = match self.current {
            Some(at) => at,
            None => 0,
        };
        let chat = &mut self.chats[at];
        proof {
            let chats = old(self).chats@.update(at as int, *final(chat));
            assert(chats.map_values(|c: Chat<R>| c@) =~= old(self)@.chats.update(
                at as int,
                final(chat)@,
            ));
        }
        chat
    }

    /// Takes in a response of the backend, and says whether the registry
    /// holds the chat that it is for. If not, the response is dropped.
    pub fn dispatch(&mut self, response: CommandResponse) -> (delivered: bool)
        requires
            old(self).wf(),
            old(self)@.can_apply(response@),
        ensures
            final(self).wf(),
            final(self)@ == old(self)@.dispatch(response@),
            delivered == old(self)@.find(response@.uuid()) is Some,
            !delivered ==> final(self)@ == old(self)@,
    {
        if self.position(response.uuid()).is_none() {
            return false;
        }
        match response {
            CommandResponse::Chat(uuid, message) => self.add_message(uuid, message),
            CommandResponse::Activity(uuid, text) => self.transition(
                uuid,
                ChatState::LoadingWithMessage(text),
            ),
            CommandResponse::RenameChat(uuid, name) => self.rename(uuid, name.as_str()),
            CommandResponse::RenameBranch(uuid, name) => self.rename_branch(uuid, name.as_str()),
            CommandResponse::BackendMessage(uuid, text) => self.add_message(
                uuid,
                ChatMessage::new_system(text.as_str()),
            ),
            CommandResponse::Completed(uuid) => self.transition(uuid, ChatState::Ready),
        }
        self.dirty = true;
        true
    }

    /// Whether a response has changed a chat since [`Registry::mark_clean`].
    pub fn is_dirty(&self) -> (dirty: bool)
        ensures
            dirty == self@.dirty,
    {
        self.dirty
    }

    /// Records that the screen shows the chats as they are.
    pub fn mark_clean(&mut self)
        ensures
            final(self)@ == (RegistryView { dirty: false, ..old(self)@ }),
            old(self).wf() ==> final(self).wf(),
    {
        self.dirty = false;
    }
}

} // verus!

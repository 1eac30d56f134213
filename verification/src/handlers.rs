//! What a bot does with the requests of the platform: which requests pass,
//! where each one goes, what an event changes and what is answered.

use vstd::prelude::*;
use vstd::string::*;
use crate::errors::{BerylliumError, BerylliumResult};
use crate::members::{joined_all, without_all, Member};
use crate::messages::{Content, GenericMessage};
use crate::encoding::{base64_text, fits_base64};
use crate::storage::{StorageManager, MAX_INITIAL_MEMBERS};
use crate::text::{chars_of, same_text};
use crate::types::{deserialize_conv_event_type, event_type_named, BotCreationData,
    BotCreationResponse, Conversation, ConversationData, ConversationEventType, ConversationView,
    Event, EventData, EventView, MessageData};
use crate::utils::{authorized, check_authorization, Config};

verus! {

/// Where a request goes.
#[derive(Clone, Debug, PartialEq, Eq)]
pub enum Route {
    /// The creation of a bot.
    CreateBot,
    /// An event for the bot that the text names.
    BotMessages(String),
    /// Nowhere.
    Unknown,
}

/// A `Route` as a mathematical value.
pub enum RouteView {
    CreateBot,
    BotMessages(Seq<char>),
    Unknown,
}

impl View for Route {
    type V = RouteView;

    open spec fn view(&self) -> RouteView {
        match self {
            Route::CreateBot => RouteView::CreateBot,
            Route::BotMessages(id) => RouteView::BotMessages(id@),
            Route::Unknown => RouteView::Unknown,
        }
    }
}

/// The number of slashes at the start of the path.
pub open spec fn leading_slashes(path: Seq<char>) -> nat
    decreases path.len(),
{
    if path.len() > 0 && path[0] == '/' {
        1 + leading_slashes(path.drop_first())
    } else {
        0
    }
}

/// The number of slashes at the end of the path.
pub open spec fn trailing_slashes(path: Seq<char>) -> nat
    decreases path.len(),
{
    if path.len() > 0 && path.last() == '/' {
        1 + trailing_slashes(path.drop_last())
    } else {
        0
    }
}

/// The path without the slashes at its start and at its end.
pub open spec fn trimmed(path: Seq<char>) -> Seq<char> {
    if leading_slashes(path) == path.len() {
        Seq::empty()
    } else {
        path.subrange(leading_slashes(path) as int, path.len() - trailing_slashes(path))
    }
}

/// Where a request for the path goes. With the slashes around it set
/// aside, the path `bots` creates a bot, and a path of the three parts
/// `bots`, an id and `messages` brings an event for the bot with that id.
/// The id is whatever stands between the two slashes, the empty text too.
pub open spec fn route_of(path: Seq<char>) -> RouteView {
    let t = trimmed(path);
    if t == "bots"@ {
        RouteView::CreateBot
    } else if t.len() >= 14 && t.subrange(0, 5) == "bots/"@ && t.subrange(t.len() - 9, t.len() as int)
        == "/messages"@ && !t.subrange(5, t.len() - 9).contains('/') {
        RouteView::BotMessages(t.subrange(5, t.len() - 9))
    } else {
        RouteView::Unknown
    }
}

/// The status with which a request is refused before its body is looked
/// at: `405` where the method is not POST; else `401` where the request
/// does not carry the configured token; `None` where it passes.
pub open spec fn refusal(config: &Config, is_post: bool, authorization: Option<Seq<char>>) -> Option<
    u16,
> {
    if !is_post {
        Some(405u16)
    } else if !authorized(config, authorization) {
        Some(401u16)
    } else {
        None
    }
}

/// How the handling of a request that passed has ended.
#[derive(Clone, Copy, Debug, PartialEq, Eq, Structural)]
pub enum Outcome {
    /// The body is no JSON document of the shape that the route takes.
    Unparsed,
    /// The handler failed.
    Failed,
    /// The handler succeeded.
    Handled,
}

/// The status of the answer to a request that passed: `400` for a body
/// that could not be read and `500` for a handler that failed, wherever
/// the request went; else `201` for a bot created, `200` for an event and
/// `404` for a request that went nowhere.
pub open spec fn status_of(route: RouteView, outcome: Outcome) -> u16 {
    match outcome {
        Outcome::Unparsed => 400,
        Outcome::Failed => 500,
        Outcome::Handled => match route {
            RouteView::CreateBot => 201,
            RouteView::BotMessages(_) => 200,
            RouteView::Unknown => 404,
        },
    }
}

proof fn leading_slashes_spec(path: Seq<char>)
    ensures
        leading_slashes(path) <= path.len(),
        forall|i: int| 0 <= i < leading_slashes(path) ==> path[i] == '/',
        leading_slashes(path) < path.len() ==> path[leading_slashes(path) as int] != '/',
    decreases path.len(),
{
    if path.len() > 0 && path[0] == '/' {
        let rest = path.drop_first();
        leading_slashes_spec(rest);
        assert forall|i: int| 0 <= i < leading_slashes(path) implies path[i] == '/' by {
            if i > 0 {
                assert(rest[i - 1] == '/');
            }
        }
        if leading_slashes(path) < path.len() {
            assert(rest[leading_slashes(rest) as int] != '/');
        }
    }
}

proof fn leading_slashes_found(path: Seq<char>, n: int)
    requires
        0 <= n <= path.len(),
        forall|i: int| 0 <= i < n ==> path[i] == '/',
        n < path.len() ==> path[n] != '/',
    ensures
        leading_slashes(path) == n,
{
    leading_slashes_spec(path);
    let m = leading_slashes(path) as int;
    if m < n {
        assert(path[m] == '/');
    } else if n < m {
        assert(path[n] == '/');
    }
}

proof fn trailing_slashes_spec(path: Seq<char>)
    ensures
        trailing_slashes(path) <= path.len(),
        forall|i: int| path.len() - trailing_slashes(path) <= i < path.len() ==> path[i] == '/',
        trailing_slashes(path) < path.len() ==> path[path.len() - trailing_slashes(path) - 1]
            != '/',
    decreases path.len(),
{
    if path.len() > 0 && path.last() == '/' {
        let rest = path.drop_last();
        trailing_slashes_spec(rest);
        assert forall|i: int| path.len() - trailing_slashes(path) <= i < path.len() implies path[i]
            == '/' by {
            if i < path.len() - 1 {
                assert(rest[i] == '/');
            }
        }
        if trailing_slashes(path) < path.len() {
            assert(rest[rest.len() - trailing_slashes(rest) - 1] != '/');
        }
    }
}

proof fn trailing_slashes_found(path: Seq<char>, n: int)
    requires
        0 <= n <= path.len(),
        forall|i: int| path.len() - n <= i < path.len() ==> path[i] == '/',
        n < path.len() ==> path[path.len() - n - 1] != '/',
    ensures
        trailing_slashes(path) == n,
{
    trailing_slashes_spec(path);
    let m = trailing_slashes(path) as int;
    if m < n {
        assert(path[path.len() - m - 1] == '/');
    } else if n < m {
        assert(path[path.len() - n - 1] == '/');
    }
}

fn matches_at(chars: &Vec<char>, from: usize, word: &str) -> (r: bool)
    requires
        from <= chars@.len(),
    ensures
        r == (from + word@.len() <= chars@.len() && chars@.subrange(
            from as int,
            from + word@.len(),
        ) == word@),
{
    let w = chars_of(word);
    if w.len() > chars.len() - from {
        return false;
    }
    let mut i: usize = 0;
    while i < w.len()
        invariant
            i <= w.len(),
            from + w.len() <= chars.len(),
            w@ == word@,
            forall|j: int| 0 <= j < i ==> chars@[from + j] == w@[j],
        decreases w.len() - i,
    {
        if chars[from + i] != w[i] {
            assert(chars@.subrange(from as int, from + word@.len())[i as int] != word@[i as int]);
            return false;
        }
        i = i + 1;
    }
    assert(chars@.subrange(from as int, from + word@.len()) =~= word@);
    true
}

/// Where a request for the path goes.
pub fn route(path: &str) -> (r: Route)
    ensures
        r@ == route_of(path@),
{
    let chars = chars_of(path);
    let n = chars.len();
    let mut a: usize = 0;
    while a < n && chars[a] == '/'
        invariant
            a <= n,
            n == chars@.len(),
            forall|i: int| 0 <= i < a ==> chars@[i] == '/',
        decreases n - a,
    {
        a = a + 1;
    }
    proof {
        leading_slashes_found(path@, a as int);
    }
    if a == n {
        proof {
            reveal_strlit("bots");
            assert(trimmed(path@).len() == 0);
            assert("bots"@.len() == 4);
        }
        return Route::Unknown;
    }
    let mut b: usize = n;
    while b > a && chars[b - 1] == '/'
        invariant
            a < n,
            a <= b <= n,
            n == chars@.len(),
            chars@[a as int] != '/',
            forall|i: int| b <= i < n ==> chars@[i] == '/',
        decreases b,
    {
        b = b - 1;
    }
    assert(b > a);
    proof {
        trailing_slashes_found(path@, n - b);
    }
    let ghost t = trimmed(path@);
    assert(t == path@.subrange(a as int, b as int));
    let inner = path.substring_char(a, b);
    assert(inner@ == t);
    if same_text(inner, "bots") {
        return Route::CreateBot;
    }
    let len = b - a;
    if len < 14 {
        return Route::Unknown;
    }
    let middle = chars_of(inner);
    proof {
        reveal_strlit("bots/");
        reveal_strlit("/messages");
    }
    if !matches_at(&middle, 0, "bots/") {
        return Route::Unknown;
    }
    if !matches_at(&middle, len - 9, "/messages") {
        return Route::Unknown;
    }
    let mut i: usize = 5;
    while i < len - 9
        invariant
            5 <= i <= len - 9,
            len == middle@.len(),
            middle@ == t,
            t == trimmed(path@),
            t != "bots"@,
            forall|j: int| 5 <= j < i ==> middle@[j] != '/',
        decreases len - 9 - i,
    {
        if middle[i] == '/' {
            proof {
                let id_chars = t.subrange(5, t.len() - 9);
                assert(id_chars[i - 5] == '/');
                assert(id_chars.contains('/'));
            }
            return Route::Unknown;
        }
        i = i + 1;
    }
    let ghost id_chars = t.subrange(5, t.len() - 9);
    assert(!id_chars.contains('/')) by {
        if id_chars.contains('/') {
            let k = choose|k: int| 0 <= k < id_chars.len() && #[trigger] id_chars[k] == '/';
            assert(middle@[k + 5] == '/');
        }
    }
    let id = inner.substring_char(5, len - 9);
    Route::BotMessages(id.to_owned())
}

/// Decides whether a request passes, and where it goes if it does. The
/// method is tested first, then the token; the first test that fails
/// decides the status of the refusal.
pub fn call(config: &Config, is_post: bool, authorization: Option<&str>, path: &str) -> (r: Result<
    Route,
    u16,
>)
    ensures
        match refusal(
            config,
            is_post,
            match authorization {
                Some(h) => Some(h@),
                None => None,
            },
        ) {
            Some(status) => r == Err::<Route, u16>(status),
            None => r matches Ok(to) && to@ == route_of(path@),
        },
{
    if !is_post {
        Err(405)
    } else if !check_authorization(config, authorization) {
        Err(401)
    } else {
        Ok(route(path))
    }
}

/// The status of the answer to a request that passed.
pub fn reply_status(route: &Route, outcome: Outcome) -> (r: u16)
    ensures
        r == status_of(route@, outcome),
{
    match outcome {
        Outcome::Unparsed => 400,
        Outcome::Failed => 500,
        Outcome::Handled => match route {
            Route::CreateBot => 201,
            Route::BotMessages(_) => 200,
            Route::Unknown => 404,
        },
    }
}

/// The answer to the creation of a bot in the conversation of `data`:
/// `fresh` holds the serialised prekeys that the store generated for the
/// scheduled ids, in the order of the schedule. The answer lists all of
/// them in base64, the last resort prekey apart from the others.
pub fn create_bot(data: &BotCreationData, fresh: &Vec<Vec<u8>>) -> (r: BotCreationResponse)
    requires
        data.conversation.members@.len() <= MAX_INITIAL_MEMBERS,
        fresh@.len() == 8 * data.conversation.members@.len() + 1,
        forall|i: int| 0 <= i < fresh@.len() ==> fits_base64(#[trigger] fresh@[i]@.len()),
    ensures
        r.prekeys@.len() == 8 * data.conversation.members@.len(),
        forall|i: int|
            0 <= i < r.prekeys@.len() ==> (#[trigger] r.prekeys@[i]).id == i && r.prekeys@[i].key@
                == base64_text(fresh@[i]@),
        r.last_prekey.id == 65535,
        r.last_prekey.key@ == base64_text(fresh@[fresh@.len() - 1]@),
{
    let n = data.conversation.members.len();
    let mut prekeys = StorageManager::initialize_prekeys(n, fresh);
    let ghost all = prekeys@;
    let last_prekey = prekeys.pop().unwrap();
    assert(forall|i: int| 0 <= i < prekeys@.len() ==> prekeys@[i] == all[i]);
    BotCreationResponse { prekeys, last_prekey }
}

/// What the handling of an event comes to.
#[derive(Clone, Debug, PartialEq, Eq)]
pub enum Handled {
    /// The event brings a message: have the store decrypt `text`, which
    /// comes from the device `client` of `user`, and handle the event again
    /// with the message that the plaintext holds.
    Decrypt { user: String, client: String, text: String },
    /// The event has been applied. `event` goes to the bot's own code;
    /// `confirm` is the id of a message whose delivery is to be confirmed;
    /// `evict` says that the bot has left and is to be forgotten.
    Done { event: Option<EventData>, confirm: Option<String>, evict: bool },
}

/// Whether an event of the kind carries what such an event carries.
pub open spec fn well_shaped(kind: ConversationEventType, data: ConversationData) -> bool {
    match (kind, data) {
        (ConversationEventType::MessageAdd, ConversationData::MessageAdd { .. }) => true,
        (ConversationEventType::MemberJoin, ConversationData::LeavingOrJoiningMembers { .. }) => true,
        (ConversationEventType::MemberLeave, ConversationData::LeavingOrJoiningMembers { .. }) => true,
        (ConversationEventType::Rename, ConversationData::Rename { .. }) => true,
        _ => false,
    }
}

/// The conversation once the event has been applied: those who joined are
/// members with status 0 unless they were members before, those who left
/// are no members, and a new name is the name. A message changes nothing.
pub open spec fn conversation_after(
    c: ConversationView,
    kind: ConversationEventType,
    data: ConversationData,
) -> ConversationView {
    match (kind, data) {
        (
            ConversationEventType::MemberJoin,
            ConversationData::LeavingOrJoiningMembers { user_ids },
        ) => ConversationView { id: c.id, name: c.name, members: joined_all(c.members, user_ids@) },
        (
            ConversationEventType::MemberLeave,
            ConversationData::LeavingOrJoiningMembers { user_ids },
        ) => ConversationView { id: c.id, name: c.name, members: without_all(c.members, user_ids@) },
        (ConversationEventType::Rename, ConversationData::Rename { name }) => ConversationView {
            id: c.id,
            name: name@,
            members: c.members,
        },
        _ => c,
    }
}

/// What the bot's own code is told of the event that `from` caused, if
/// anything. Of a message it is told only where the message is a text.
pub open spec fn event_of(
    kind: ConversationEventType,
    from: Seq<char>,
    data: ConversationData,
    message: Option<GenericMessage>,
) -> Option<EventView> {
    match (kind, data) {
        (ConversationEventType::MessageAdd, ConversationData::MessageAdd { .. }) => match message {
            Some(m) => match m.content {
                Content::Text(t) => Some(EventView::Message { text: t@, from }),
                _ => None,
            },
            None => None,
        },
        (
            ConversationEventType::MemberJoin,
            ConversationData::LeavingOrJoiningMembers { user_ids },
        ) => Some(EventView::ConversationMemberJoin { members_joined: user_ids@ }),
        (
            ConversationEventType::MemberLeave,
            ConversationData::LeavingOrJoiningMembers { user_ids },
        ) => Some(EventView::ConversationMemberLeave { members_left: user_ids@ }),
        (ConversationEventType::Rename, ConversationData::Rename { .. }) => Some(
            EventView::ConversationRename,
        ),
        _ => None,
    }
}

/// Whether the event says that the bot itself has left the conversation.
pub open spec fn bot_leaves(bot_id: u128, kind: ConversationEventType, data: ConversationData) -> bool {
    match (kind, data) {
        (
            ConversationEventType::MemberLeave,
            ConversationData::LeavingOrJoiningMembers { user_ids },
        ) => user_ids@.contains(bot_id),
        _ => false,
    }
}

/// Whether `h` is what the handling of the event comes to, for a bot whose
/// conversation is `after` once the event has been applied.
pub open spec fn handled_as(
    h: Handled,
    bot_id: u128,
    after: ConversationView,
    kind: ConversationEventType,
    from: Seq<char>,
    data: ConversationData,
    message: Option<GenericMessage>,
) -> bool {
    match (kind, data, message) {
        (
            ConversationEventType::MessageAdd,
            ConversationData::MessageAdd { sender, recipient, text },
            None,
        ) => {
            &&& h matches Handled::Decrypt { user, client, text: cipher }
            &&& user@ == from
            &&& client@ == sender@
            &&& cipher@ == text@
        },
        _ => {
            &&& h matches Handled::Done { event, confirm, evict }
            &&& evict == bot_leaves(bot_id, kind, data)
            &&& match (kind, message) {
                (ConversationEventType::MessageAdd, Some(m)) => confirm matches Some(id) && id@
                    == m.message_id@,
                _ => confirm.is_none(),
            }
            &&& match event_of(kind, from, data, message) {
                Some(ev) => event matches Some(e) && e@.bot_id == bot_id && e@.conversation == after
                    && e@.event == ev,
                None => event.is_none(),
            }
        },
    }
}

/// Whether `r` and the conversation `after` are what the handling of an
/// event comes to for the bot with the id `bot_id`, whose conversation was
/// `before`. An event whose content does not fit its kind is an error and
/// changes nothing; any other event is applied to the conversation.
pub open spec fn handles(
    before: Conversation,
    after: Conversation,
    r: BerylliumResult<Handled>,
    bot_id: u128,
    kind: ConversationEventType,
    from: Seq<char>,
    data: ConversationData,
    message: Option<GenericMessage>,
) -> bool {
    if well_shaped(kind, data) {
        &&& after@ == conversation_after(before@, kind, data)
        &&& r matches Ok(h)
        &&& handled_as(h, bot_id, after@, kind, from, data, message)
    } else {
        &&& r == Err::<Handled, BerylliumError>(BerylliumError::Unreachable)
        &&& after == before
    }
}

fn join_members(conversation: &mut Conversation, user_ids: &Vec<u128>)
    ensures
        final(conversation)@ == (ConversationView {
            id: old(conversation).id,
            name: old(conversation).name@,
            members: joined_all(old(conversation).members@, user_ids@),
        }),
{
    let mut i: usize = 0;
    assert(user_ids@.take(0) =~= Seq::empty());
    while i < user_ids.len()
        invariant
            i <= user_ids.len(),
            conversation.id == old(conversation).id,
            conversation.name == old(conversation).name,
            conversation.members@ == joined_all(old(conversation).members@, user_ids@.take(i as int)),
        decreases user_ids.len() - i,
    {
        assert(user_ids@.take(i + 1).drop_last() =~= user_ids@.take(i as int));
        conversation.members.insert(Member { id: user_ids[i], status: 0 });
        i = i + 1;
    }
    assert(user_ids@.take(i as int) =~= user_ids@);
}

fn leave_members(conversation: &mut Conversation, user_ids: &Vec<u128>, bot_id: u128) -> (bot_left:
    bool)
    ensures
        final(conversation)@ == (ConversationView {
            id: old(conversation).id,
            name: old(conversation).name@,
            members: without_all(old(conversation).members@, user_ids@),
        }),
        bot_left == user_ids@.contains(bot_id),
{
    let mut i: usize = 0;
    let mut bot_left = false;
    assert(user_ids@.take(0) =~= Seq::empty());
    while i < user_ids.len()
        invariant
            i <= user_ids.len(),
            conversation.id == old(conversation).id,
            conversation.name == old(conversation).name,
            conversation.members@ == without_all(
                old(conversation).members@,
                user_ids@.take(i as int),
            ),
            bot_left == user_ids@.take(i as int).contains(bot_id),
        decreases user_ids.len() - i,
    {
        let ghost before = user_ids@.take(i as int);
        let ghost after = user_ids@.take(i + 1);
        assert(after.drop_last() =~= before);
        conversation.members.remove(user_ids[i]);
        if user_ids[i] == bot_id {
            bot_left = true;
            assert(after[i as int] == bot_id);
        } else {
            proof {
                if before.contains(bot_id) {
                    let k = choose|k: int| 0 <= k < before.len() && before[k] == bot_id;
                    assert(after[k] == bot_id);
                }
                if after.contains(bot_id) {
                    let k = choose|k: int| 0 <= k < after.len() && after[k] == bot_id;
                    assert(before[k] == bot_id);
                }
            }
        }
        i = i + 1;
    }
    assert(user_ids@.take(i as int) =~= user_ids@);
    bot_left
}

fn copy_ids(ids: &Vec<u128>) -> (r: Vec<u128>)
    ensures
        r@ == ids@,
{
    let mut out: Vec<u128> = Vec::new();
    let mut i: usize = 0;
    while i < ids.len()
        invariant
            i <= ids.len(),
            out@ == ids@.take(i as int),
        decreases ids.len() - i,
    {
        out.push(ids[i]);
        assert(out@ =~= ids@.take(i + 1));
        i = i + 1;
    }
    assert(ids@.take(i as int) =~= ids@);
    out
}

fn apply_event(
    conversation: &mut Conversation,
    bot_id: u128,
    kind: ConversationEventType,
    from: &str,
    data: &ConversationData,
    message: Option<&GenericMessage>,
) -> (r: BerylliumResult<Handled>)
    ensures
        handles(
            *old(conversation),
            *final(conversation),
            r,
            bot_id,
            kind,
            from@,
            *data,
            match message {
                Some(m) => Some(*m),
                None => None,
            },
        ),
{
    match (kind, data) {
        (ConversationEventType::MessageAdd, ConversationData::MessageAdd { sender, recipient, text }) => {
            match message {
                None => Ok(
                    Handled::Decrypt {
                        user: from.to_owned(),
                        client: sender.clone(),
                        text: text.clone(),
                    },
                ),
                Some(m) => {
                    let event = match m.text_content() {
                        Some(content) => Some(
                            EventData {
                                bot_id,
                                conversation: conversation.clone(),
                                event: Event::Message {
                                    text: content.to_owned(),
                                    from: from.to_owned(),
                                },
                            },
                        ),
                        None => None,
                    };
                    Ok(Handled::Done { event, confirm: Some(m.message_id.clone()), evict: false })
                },
            }
        },
        (ConversationEventType::MemberJoin, ConversationData::LeavingOrJoiningMembers { user_ids }) => {
            join_members(conversation, user_ids);
            let event = EventData {
                bot_id,
                conversation: conversation.clone(),
                event: Event::ConversationMemberJoin { members_joined: copy_ids(user_ids) },
            };
            Ok(Handled::Done { event: Some(event), confirm: None, evict: false })
        },
        (ConversationEventType::MemberLeave, ConversationData::LeavingOrJoiningMembers { user_ids }) => {
            let evict = leave_members(conversation, user_ids, bot_id);
            let event = EventData {
                bot_id,
                conversation: conversation.clone(),
                event: Event::ConversationMemberLeave { members_left: copy_ids(user_ids) },
            };
            Ok(Handled::Done { event: Some(event), confirm: None, evict })
        },
        (ConversationEventType::Rename, ConversationData::Rename { name }) => {
            conversation.name = name.clone();
            let event = EventData {
                bot_id,
                conversation: conversation.clone(),
                event: Event::ConversationRename,
            };
            Ok(Handled::Done { event: Some(event), confirm: None, evict: false })
        },
        _ => Err(BerylliumError::Unreachable),
    }
}

/// Handles an event for the bot with the id `bot_id`, whose conversation
/// is `conversation`. An event whose content does not fit its kind is an
/// error and changes nothing. Otherwise the event is applied to the
/// conversation. An event that brings a message is handled in two turns:
/// without `message` the answer asks for the message to be decrypted, and
/// with it the delivery is to be confirmed and, where the message is a
/// text, the bot's own code is told.
pub fn handle_events(
    conversation: &mut Conversation,
    bot_id: u128,
    data: &MessageData,
    message: Option<&GenericMessage>,
) -> (r: BerylliumResult<Handled>)
    ensures
        handles(
            *old(conversation),
            *final(conversation),
            r,
            bot_id,
            data.type_,
            data.from@,
            data.data,
            match message {
                Some(m) => Some(*m),
                None => None,
            },
        ),
{
    apply_event(conversation, bot_id, data.type_, data.from.as_str(), &data.data, message)
}

/// Handles an event as the platform sent it: `kind_name` is the name of
/// its kind, `from` the user who caused it and `data` what it carries. A
/// name that is none of the four kinds is an error and changes nothing;
/// under any other name the event is handled as `handle_events` handles an
/// event of that kind.
pub fn handle_typed_events(
    conversation: &mut Conversation,
    bot_id: u128,
    kind_name: &str,
    from: &str,
    data: &ConversationData,
    message: Option<&GenericMessage>,
) -> (r: BerylliumResult<Handled>)
    ensures
        match event_type_named(kind_name@) {
            Some(kind) => handles(
                *old(conversation),
                *final(conversation),
                r,
                bot_id,
                kind,
                from@,
                *data,
                match message {
                    Some(m) => Some(*m),
                    None => None,
                },
            ),
            None => r == Err::<Handled, BerylliumError>(BerylliumError::Unreachable)
                && *final(conversation) == *old(conversation),
        },
{
    match deserialize_conv_event_type(kind_name) {
        Ok(kind) => apply_event(conversation, bot_id, kind, from, data, message),
        Err(_) => Err(BerylliumError::Unreachable),
    }
}

} // verus!

use vstd::prelude::*;

use crate::notification::{Notification, NotificationView};
use crate::response::FcmError;
use crate::text::{list_view, opt_list_view, opt_str_view, owned, owned_list};

verus! {

/// How urgently the service should deliver a message.
#[derive(Debug, Clone, Copy, PartialEq, Eq, Structural)]
pub enum Priority {
    Normal,
    High,
}

/// The payload of a message: its target and its delivery options. A field
/// left `None` is left out of the encoded message.
///
/// `to` names a single registration token or a topic (`/topics/...`). When
/// `registration_ids` is set, the message goes to those tokens and `to` is
/// still sent.
#[derive(Debug, PartialEq, Eq)]
pub struct MessageBody {
    pub collapse_key: Option<String>,
    pub content_available: Option<bool>,
    /// Arbitrary JSON text, already encoded.
    pub data: Option<String>,
    pub delay_while_idle: Option<bool>,
    pub dry_run: Option<bool>,
    pub notification: Option<Notification>,
    pub priority: Option<Priority>,
    pub registration_ids: Option<Vec<String>>,
    pub restricted_package_name: Option<String>,
    pub time_to_live: Option<i32>,
    pub to: String,
}

/// A message ready to be sent: the payload and the API key that travels in
/// the request's `Authorization` header, never in the body.
#[derive(Debug, PartialEq, Eq)]
pub struct Message {
    pub api_key: String,
    pub body: MessageBody,
}

/// The fields of a message body as plain values.
pub struct MessageBodyView {
    pub collapse_key: Option<Seq<char>>,
    pub content_available: Option<bool>,
    pub data: Option<Seq<char>>,
    pub delay_while_idle: Option<bool>,
    pub dry_run: Option<bool>,
    pub notification: Option<NotificationView>,
    pub priority: Option<Priority>,
    pub registration_ids: Option<Seq<Seq<char>>>,
    pub restricted_package_name: Option<Seq<char>>,
    pub time_to_live: Option<i32>,
    pub to: Seq<char>,
}

/// A message as plain values.
pub struct MessageView {
    pub api_key: Seq<char>,
    pub body: MessageBodyView,
}

/// The view of an optional notification.
pub open spec fn opt_notification_view(o: Option<Notification>) -> Option<NotificationView> {
    match o {
        Some(n) => Some(n@),
        None => None,
    }
}

impl MessageBodyView {
    /// The body sent to `to` with no option set.
    pub open spec fn bare(to: Seq<char>) -> MessageBodyView {
        MessageBodyView {
            collapse_key: None,
            content_available: None,
            data: None,
            delay_while_idle: None,
            dry_run: None,
            notification: None,
            priority: None,
            registration_ids: None,
            restricted_package_name: None,
            time_to_live: None,
            to,
        }
    }
}

impl View for MessageBody {
    type V = MessageBodyView;

    open spec fn view(&self) -> MessageBodyView {
        MessageBodyView {
            collapse_key: opt_str_view(self.collapse_key),
            content_available: self.content_available,
            data: opt_str_view(self.data),
            delay_while_idle: self.delay_while_idle,
            dry_run: self.dry_run,
            notification: opt_notification_view(self.notification),
            priority: self.priority,
            registration_ids: opt_list_view(self.registration_ids),
            restricted_package_name: opt_str_view(self.restricted_package_name),
            time_to_live: self.time_to_live,
            to: self.to@,
        }
    }
}

impl View for Message {
    type V = MessageView;

    open spec fn view(&self) -> MessageView {
        MessageView { api_key: self.api_key@, body: self.body@ }
    }
}

/// Relies on serde_json::to_string: the compact JSON text of a serializable
/// value, or the message of the error that stopped it.
#[verifier::external_body]
fn json_text<T: serde::Serialize + ?Sized>(value: &T) -> (r: Result<String, String>) {
    serde_json::to_string(value).map_err(|e| e.to_string())
}

/// Assembles a [`Message`] one option at a time.
pub struct MessageBuilder {
    api_key: String,
    body: MessageBody,
}

impl View for MessageBuilder {
    type V = MessageView;

    closed spec fn view(&self) -> MessageView {
        MessageView { api_key: self.api_key@, body: self.body@ }
    }
}

impl MessageBuilder {
    /// A builder for a message to `to` (a registration token or a topic),
    /// sent with `api_key`, with no option set.
    pub fn new(api_key: &str, to: &str) -> (r: MessageBuilder)
        ensures
            r@ == (MessageView { api_key: api_key@, body: MessageBodyView::bare(to@) }),
    {
        MessageBuilder {
            api_key: owned(api_key),
            body: MessageBody {
                collapse_key: None,
                content_available: None,
                data: None,
                delay_while_idle: None,
                dry_run: None,
                notification: None,
                priority: None,
                registration_ids: None,
                restricted_package_name: None,
                time_to_live: None,
                to: owned(to),
            },
        }
    }

    /// Sets the registration tokens that the message fans out to.
    pub fn registration_ids(&mut self, registration_ids: Vec<&str>) -> (r: &mut MessageBuilder)
        ensures
            r@ == (MessageView {
                body: MessageBodyView { registration_ids: Some(registration_ids@.map_values(|s: &str| s@)), ..old(self)@.body },
                ..old(self)@
            }),
            final(self)@ == final(r)@,
    {
        self.body.registration_ids = Some(owned_list(registration_ids));
        self
    }

    /// Sets the key that lets the service collapse a group of pending messages into the latest one.
    pub fn collapse_key(&mut self, collapse_key: &str) -> (r: &mut MessageBuilder)
        ensures
            r@ == (MessageView {
                body: MessageBodyView { collapse_key: Some(collapse_key@), ..old(self)@.body },
                ..old(self)@
            }),
            final(self)@ == final(r)@,
    {
        self.body.collapse_key = Some(owned(collapse_key));
        self
    }

    /// Sets the delivery priority.
    pub fn priority(&mut self, priority: Priority) -> (r: &mut MessageBuilder)
        ensures
            r@ == (MessageView {
                body: MessageBodyView { priority: Some(priority), ..old(self)@.body },
                ..old(self)@
            }),
            final(self)@ == final(r)@,
    {
        self.body.priority = Some(priority);
        self
    }

    /// Sets the `content_available` flag, which wakes an inactive iOS application.
    pub fn content_available(&mut self, content_available: bool) -> (r: &mut MessageBuilder)
        ensures
            r@ == (MessageView {
                body: MessageBodyView { content_available: Some(content_available), ..old(self)@.body },
                ..old(self)@
            }),
            final(self)@ == final(r)@,
    {
        self.body.content_available = Some(content_available);
        self
    }

    /// When set to `true`, the message is delivered only once the device is active.
    pub fn delay_while_idle(&mut self, delay_while_idle: bool) -> (r: &mut MessageBuilder)
        ensures
            r@ == (MessageView {
                body: MessageBodyView { delay_while_idle: Some(delay_while_idle), ..old(self)@.body },
                ..old(self)@
            }),
            final(self)@ == final(r)@,
    {
        self.body.delay_while_idle = Some(delay_while_idle);
        self
    }

    /// Sets how long, in seconds, the service keeps the message for an offline device. The service's own limit (four weeks) is not checked here.
    pub fn time_to_live(&mut self, time_to_live: i32) -> (r: &mut MessageBuilder)
        ensures
            r@ == (MessageView {
                body: MessageBodyView { time_to_live: Some(time_to_live), ..old(self)@.body },
                ..old(self)@
            }),
            final(self)@ == final(r)@,
    {
        self.body.time_to_live = Some(time_to_live);
        self
    }

    /// Sets the package name that the registration tokens must belong to.
    pub fn restricted_package_name(&mut self, restricted_package_name: &str) -> (r: &mut MessageBuilder)
        ensures
            r@ == (MessageView {
                body: MessageBodyView { restricted_package_name: Some(restricted_package_name@), ..old(self)@.body },
                ..old(self)@
            }),
            final(self)@ == final(r)@,
    {
        self.body.restricted_package_name = Some(owned(restricted_package_name));
        self
    }

    /// When set to `true`, the service checks the message without delivering it.
    pub fn dry_run(&mut self, dry_run: bool) -> (r: &mut MessageBuilder)
        ensures
            r@ == (MessageView {
                body: MessageBodyView { dry_run: Some(dry_run), ..old(self)@.body },
                ..old(self)@
            }),
            final(self)@ == final(r)@,
    {
        self.body.dry_run = Some(dry_run);
        self
    }

    /// Sets the notification that the message carries.
    pub fn notification(&mut self, notification: Notification) -> (r: &mut MessageBuilder)
        ensures
            r@ == (MessageView {
                body: MessageBodyView { notification: Some(notification@), ..old(self)@.body },
                ..old(self)@
            }),
            final(self)@ == final(r)@,
    {
        self.body.notification = Some(notification);
        self
    }

    /// Sets custom key-value data, encoded as JSON at once. When the value
    /// cannot be represented as JSON the builder is left as it was and the
    /// error says why.
    pub fn data<T: serde::Serialize + ?Sized>(&mut self, data: &T) -> (r: Result<(), FcmError>)
        ensures
            r is Ok ==> final(self)@.body.data is Some && final(self)@ == (MessageView {
                body: MessageBodyView { data: final(self)@.body.data, ..old(self)@.body },
                ..old(self)@
            }),
            r is Err ==> final(self)@ == old(self)@ && r->Err_0 is InvalidMessage,
    {
        match json_text(data) {
            Ok(text) => {
                self.body.data = Some(text);
                Ok(())
            },
            Err(reason) => Err(FcmError::InvalidMessage(reason)),
        }
    }

    /// Completes the build.
    pub fn finalize(self) -> (m: Message)
        ensures
            m@ == self@,
    {
        Message { api_key: self.api_key, body: self.body }
    }
}

} // verus!

use vstd::prelude::*;

use crate::text::{list_view, opt_list_view, opt_str_view, owned, owned_list};

verus! {

/// A visual push notification. Every attribute is optional; an attribute left
/// unset is left out of the encoded message. Build one with
/// [`NotificationBuilder`].
#[derive(Debug, PartialEq, Eq)]
pub struct Notification {
    pub badge: Option<String>,
    pub body: Option<String>,
    pub body_loc_args: Option<Vec<String>>,
    pub body_loc_key: Option<String>,
    pub click_action: Option<String>,
    pub color: Option<String>,
    pub icon: Option<String>,
    pub sound: Option<String>,
    pub tag: Option<String>,
    pub title: Option<String>,
    pub title_loc_args: Option<Vec<String>>,
    pub title_loc_key: Option<String>,
}

/// The attributes of a notification as plain sequences of characters.
pub struct NotificationView {
    pub badge: Option<Seq<char>>,
    pub body: Option<Seq<char>>,
    pub body_loc_args: Option<Seq<Seq<char>>>,
    pub body_loc_key: Option<Seq<char>>,
    pub click_action: Option<Seq<char>>,
    pub color: Option<Seq<char>>,
    pub icon: Option<Seq<char>>,
    pub sound: Option<Seq<char>>,
    pub tag: Option<Seq<char>>,
    pub title: Option<Seq<char>>,
    pub title_loc_args: Option<Seq<Seq<char>>>,
    pub title_loc_key: Option<Seq<char>>,
}

impl NotificationView {
    /// The view with no attribute set.
    pub open spec fn empty() -> NotificationView {
        NotificationView {
            badge: None,
            body: None,
            body_loc_args: None,
            body_loc_key: None,
            click_action: None,
            color: None,
            icon: None,
            sound: None,
            tag: None,
            title: None,
            title_loc_args: None,
            title_loc_key: None,
        }
    }
}

impl View for Notification {
    type V = NotificationView;

    open spec fn view(&self) -> NotificationView {
        NotificationView {
            badge: opt_str_view(self.badge),
            body: opt_str_view(self.body),
            body_loc_args: opt_list_view(self.body_loc_args),
            body_loc_key: opt_str_view(self.body_loc_key),
            click_action: opt_str_view(self.click_action),
            color: opt_str_view(self.color),
            icon: opt_str_view(self.icon),
            sound: opt_str_view(self.sound),
            tag: opt_str_view(self.tag),
            title: opt_str_view(self.title),
            title_loc_args: opt_list_view(self.title_loc_args),
            title_loc_key: opt_str_view(self.title_loc_key),
        }
    }
}

/// Assembles a [`Notification`] one attribute at a time. No value is checked:
/// every string is taken as it is.
pub struct NotificationBuilder {
    title: Option<String>,
    body: Option<String>,
    icon: Option<String>,
    sound: Option<String>,
    badge: Option<String>,
    tag: Option<String>,
    color: Option<String>,
    click_action: Option<String>,
    body_loc_key: Option<String>,
    body_loc_args: Option<Vec<String>>,
    title_loc_key: Option<String>,
    title_loc_args: Option<Vec<String>>,
}

impl View for NotificationBuilder {
    type V = NotificationView;

    closed spec fn view(&self) -> NotificationView {
        NotificationView {
            badge: opt_str_view(self.badge),
            body: opt_str_view(self.body),
            body_loc_args: opt_list_view(self.body_loc_args),
            body_loc_key: opt_str_view(self.body_loc_key),
            click_action: opt_str_view(self.click_action),
            color: opt_str_view(self.color),
            icon: opt_str_view(self.icon),
            sound: opt_str_view(self.sound),
            tag: opt_str_view(self.tag),
            title: opt_str_view(self.title),
            title_loc_args: opt_list_view(self.title_loc_args),
            title_loc_key: opt_str_view(self.title_loc_key),
        }
    }
}

impl NotificationBuilder {
    /// A builder with no attribute set.
    pub fn new() -> (r: NotificationBuilder)
        ensures
            r@ == NotificationView::empty(),
    {
        NotificationBuilder {
            title: None,
            body: None,
            icon: None,
            sound: None,
            badge: None,
            tag: None,
            color: None,
            click_action: None,
            body_loc_key: None,
            body_loc_args: None,
            title_loc_key: None,
            title_loc_args: None,
        }
    }

    /// Sets the title of the notification.
    pub fn title(&mut self, title: &str) -> (r: &mut NotificationBuilder)
        ensures
            r@ == (NotificationView { title: Some(title@), ..old(self)@ }),
            final(self)@ == final(r)@,
    {
        self.title = Some(owned(title));
        self
    }

    /// Sets the body text of the notification.
    pub fn body(&mut self, body: &str) -> (r: &mut NotificationBuilder)
        ensures
            r@ == (NotificationView { body: Some(body@), ..old(self)@ }),
            final(self)@ == final(r)@,
    {
        self.body = Some(owned(body));
        self
    }

    /// Sets the notification icon.
    pub fn icon(&mut self, icon: &str) -> (r: &mut NotificationBuilder)
        ensures
            r@ == (NotificationView { icon: Some(icon@), ..old(self)@ }),
            final(self)@ == final(r)@,
    {
        self.icon = Some(owned(icon));
        self
    }

    /// Sets the sound to be played.
    pub fn sound(&mut self, sound: &str) -> (r: &mut NotificationBuilder)
        ensures
            r@ == (NotificationView { sound: Some(sound@), ..old(self)@ }),
            final(self)@ == final(r)@,
    {
        self.sound = Some(owned(sound));
        self
    }

    /// Sets the badge shown on iOS.
    pub fn badge(&mut self, badge: &str) -> (r: &mut NotificationBuilder)
        ensures
            r@ == (NotificationView { badge: Some(badge@), ..old(self)@ }),
            final(self)@ == final(r)@,
    {
        self.badge = Some(owned(badge));
        self
    }

    /// Sets the tag: a notification with the same tag replaces an earlier one.
    pub fn tag(&mut self, tag: &str) -> (r: &mut NotificationBuilder)
        ensures
            r@ == (NotificationView { tag: Some(tag@), ..old(self)@ }),
            final(self)@ == final(r)@,
    {
        self.tag = Some(owned(tag));
        self
    }

    /// Sets the color of the icon, in #rrggbb form.
    pub fn color(&mut self, color: &str) -> (r: &mut NotificationBuilder)
        ensures
            r@ == (NotificationView { color: Some(color@), ..old(self)@ }),
            final(self)@ == final(r)@,
    {
        self.color = Some(owned(color));
        self
    }

    /// Sets what happens when the user clicks on the notification.
    pub fn click_action(&mut self, click_action: &str) -> (r: &mut NotificationBuilder)
        ensures
            r@ == (NotificationView { click_action: Some(click_action@), ..old(self)@ }),
            final(self)@ == final(r)@,
    {
        self.click_action = Some(owned(click_action));
        self
    }

    /// Sets the localization key of the body string.
    pub fn body_loc_key(&mut self, body_loc_key: &str) -> (r: &mut NotificationBuilder)
        ensures
            r@ == (NotificationView { body_loc_key: Some(body_loc_key@), ..old(self)@ }),
            final(self)@ == final(r)@,
    {
        self.body_loc_key = Some(owned(body_loc_key));
        self
    }

    /// Sets the values that replace the format specifiers of the localized body.
    pub fn body_loc_args(&mut self, body_loc_args: Vec<&str>) -> (r: &mut NotificationBuilder)
        ensures
            r@ == (NotificationView { body_loc_args: Some(body_loc_args@.map_values(|s: &str| s@)), ..old(self)@ }),
            final(self)@ == final(r)@,
    {
        self.body_loc_args = Some(owned_list(body_loc_args));
        self
    }

    /// Sets the localization key of the title string.
    pub fn title_loc_key(&mut self, title_loc_key: &str) -> (r: &mut NotificationBuilder)
        ensures
            r@ == (NotificationView { title_loc_key: Some(title_loc_key@), ..old(self)@ }),
            final(self)@ == final(r)@,
    {
        self.title_loc_key = Some(owned(title_loc_key));
        self
    }

    /// Sets the values that replace the format specifiers of the localized title.
    pub fn title_loc_args(&mut self, title_loc_args: Vec<&str>) -> (r: &mut NotificationBuilder)
        ensures
            r@ == (NotificationView { title_loc_args: Some(title_loc_args@.map_values(|s: &str| s@)), ..old(self)@ }),
            final(self)@ == final(r)@,
    {
        self.title_loc_args = Some(owned_list(title_loc_args));
        self
    }

    /// Completes the build: the notification holds exactly the attributes set.
    pub fn finalize(self) -> (n: Notification)
        ensures
            n@ == self@,
    {
        Notification {
            title: self.title,
            body: self.body,
            icon: self.icon,
            sound: self.sound,
            badge: self.badge,
            tag: self.tag,
            color: self.color,
            click_action: self.click_action,
            body_loc_key: self.body_loc_key,
            body_loc_args: self.body_loc_args,
            title_loc_key: self.title_loc_key,
            title_loc_args: self.title_loc_args,
        }
    }
}

} // verus!

//! Outgoing e-mail: recipients, the message and its attachments.

use vstd::prelude::*;

verus! {

/// An addressee: e-mail address and display name.
#[derive(Debug)]
pub struct Recipient {
    pub email: String,
    pub name: String,
}

pub type Sender = Recipient;

impl Recipient {
    /// A recipient named `first_name last_name`.
    pub fn new(email: String, first_name: String, last_name: String) -> (r: Self)
        ensures
            r.email == email,
            r.name@ == first_name@ + " "@ + last_name@,
    {
        let name = first_name.concat(" ").concat(last_name.as_str());
        Recipient { email, name }
    }

    /// The sender used when a message names none.
    pub fn default_sender() -> (r: Self)
        ensures
            r.email@ == "support@hgicrusade.com"@,
            r.name@ == "Hegemon Group International"@,
    {
        proof {
            reveal_strlit("Hegemon Group");
            reveal_strlit("International");
            reveal_strlit(" ");
            reveal_strlit("Hegemon Group International");
        }
        let r = Recipient::new(
            String::from_str("support@hgicrusade.com"),
            String::from_str("Hegemon Group"),
            String::from_str("International"),
        );
        assert(r.name@ =~= "Hegemon Group International"@);
        r
    }
}

/// A file attached to a message.
#[derive(Debug)]
pub struct Attachment {
    pub content: String,
    pub filename: String,
    pub type_: String,
    pub disposition: String,
}

/// A message to one recipient, with an optional sender, copy and attachments.
#[derive(Debug)]
pub struct Email<'a> {
    pub recipient: Recipient,
    pub subject: &'a str,
    pub body: String,
    pub from: Option<Recipient>,
    pub cc: Option<Recipient>,
    pub attachments: Vec<Attachment>,
}

impl<'a> Email<'a> {
    /// A message with no sender, no copy and no attachment.
    pub fn new(recipient: Recipient, subject: &'a str, body: String) -> (r: Self)
        ensures
            r.recipient == recipient,
            r.subject == subject,
            r.body == body,
            r.from is None,
            r.cc is None,
            r.attachments@.len() == 0,
    {
        Email { recipient, subject, body, from: None, cc: None, attachments: Vec::new() }
    }

    /// The same message sent by `from`.
    pub fn from(self, from: Sender) -> (r: Self)
        ensures
            r.from == Some(from),
            r.recipient == self.recipient,
            r.subject == self.subject,
            r.body == self.body,
            r.cc == self.cc,
            r.attachments == self.attachments,
    {
        let mut e = self;
        e.from = Some(from);
        e
    }

    /// The same message with `cc` in copy.
    pub fn cc(self, cc: Recipient) -> (r: Self)
        ensures
            r.cc == Some(cc),
            r.recipient == self.recipient,
            r.subject == self.subject,
            r.body == self.body,
            r.from == self.from,
            r.attachments == self.attachments,
    {
        let mut e = self;
        e.cc = Some(cc);
        e
    }

    /// The same message with one more attachment, `content` under `filename`.
    pub fn attach(self, filename: String, mime_type: String, content: String) -> (r: Self)
        ensures
            r.attachments@.len() == self.attachments@.len() + 1,
            r.attachments@.drop_last() == self.attachments@,
            r.attachments@.last().content == content,
            r.attachments@.last().filename == filename,
            r.attachments@.last().type_ == mime_type,
            r.attachments@.last().disposition@ == "attachment"@,
            r.recipient == self.recipient,
            r.subject == self.subject,
            r.body == self.body,
            r.from == self.from,
            r.cc == self.cc,
    {
        let mut e = self;
        e.attachments.push(
            Attachment {
                content,
                filename,
                type_: mime_type,
                disposition: String::from_str("attachment"),
            },
        );
        assert(e.attachments@.drop_last() =~= self.attachments@);
        e
    }

    /// Who a message with sender `from` is sent by: that sender, else the
    /// default sender.
    pub fn sender_or_default(from: Option<Sender>) -> (r: Sender)
        ensures
            match from {
                Some(f) => r == f,
                None => r.email@ == "support@hgicrusade.com"@ && r.name@
                    == "Hegemon Group International"@,
            },
    {
        match from {
            Some(f) => f,
            None => Recipient::default_sender(),
        }
    }
}

} // verus!

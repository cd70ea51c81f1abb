//! The outbound email capability.
//!
//! The real transport (an HTTP mail API) is a collaborator of the core; here
//! it appears as the [`EmailSender`] trait, whose contract only fixes how the
//! log of handed-over emails grows.  [`RecordingMailer`] is the in-process
//! implementation: it keeps the emails it was asked to deliver, and can be
//! switched to refuse them, standing for a transport outage.

use vstd::prelude::*;
use vstd::string::StringExecFns;
use crate::domain::SubscriberEmail;

verus! {

/// The mail transport failed to deliver.
#[derive(Clone, Copy, PartialEq, Eq, Structural, Debug)]
pub struct SendError {}

/// Mathematical value of one outbound email.
pub struct EmailView {
    pub recipient: Seq<char>,
    pub subject: Seq<char>,
    pub html: Seq<char>,
    pub text: Seq<char>,
}

/// The outbound email capability: `send` hands one email to the transport.
/// An implementation decides for itself whether delivery succeeds; the
/// contract only pins what each outcome means for the log of sent emails.
pub trait EmailSender {
    /// The emails handed over so far, oldest first.
    spec fn sent(&self) -> Seq<EmailView>;

    /// Hands one email to the transport.
    fn send(
        &mut self,
        recipient: &SubscriberEmail,
        subject: &str,
        html_body: &str,
        text_body: &str,
    ) -> (r: Result<(), SendError>)
        ensures
            r is Ok ==> final(self).sent() == old(self).sent().push(
                (EmailView {
                    recipient: recipient@,
                    subject: subject@,
                    html: html_body@,
                    text: text_body@,
                }),
            ),
            r is Err ==> final(self).sent() == old(self).sent(),
    ;
}

/// One recorded email.
pub struct EmailRecord {
    pub recipient: String,
    pub subject: String,
    pub html: String,
    pub text: String,
}

impl View for EmailRecord {
    type V = EmailView;

    open spec fn view(&self) -> EmailView {
        EmailView {
            recipient: self.recipient@,
            subject: self.subject@,
            html: self.html@,
            text: self.text@,
        }
    }
}

/// An in-process mailer: keeps every email it accepts, and refuses all of
/// them while `fail_sends` is set.
pub struct RecordingMailer {
    pub emails: Vec<EmailRecord>,
    pub fail_sends: bool,
}

impl RecordingMailer {
    /// A mailer that accepts everything and has sent nothing yet.
    pub fn new() -> (m: RecordingMailer)
        ensures
            m.sent() == Seq::<EmailView>::empty(),
            !m.fail_sends,
    {
        let m = RecordingMailer { emails: Vec::new(), fail_sends: false };
        proof {
            assert(m.sent() =~= Seq::<EmailView>::empty());
        }
        m
    }
}

impl EmailSender for RecordingMailer {
    open spec fn sent(&self) -> Seq<EmailView> {
        self.emails@.map_values(|e: EmailRecord| e@)
    }

    fn send(
        &mut self,
        recipient: &SubscriberEmail,
        subject: &str,
        html_body: &str,
        text_body: &str,
    ) -> (r: Result<(), SendError>) {
        if self.fail_sends {
            Err(SendError {})
        } else {
            let record = EmailRecord {
                recipient: String::from_str(recipient.as_ref()),
                subject: String::from_str(subject),
                html: String::from_str(html_body),
                text: String::from_str(text_body),
            };
            proof {
                assert(self.emails@.push(record).map_values(|e: EmailRecord| e@)
                    =~= self.emails@.map_values(|e: EmailRecord| e@).push(record@));
            }
            self.emails.push(record);
            Ok(())
        }
    }
}

} // verus!

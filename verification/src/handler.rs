//! The alert dispatcher: what to present for an inbound alert, and which
//! alerts await confirmation.
//!
//! Presentation and bookkeeping are kept apart. [`AlertHandler::handle_alert`]
//! does the bookkeeping and hands back what to present; the caller plays the
//! sound and shows the toast, and whatever becomes of them changes nothing
//! here.

use crate::audio::AudioPlayer;
use crate::messages::{Alert, AlertView, Confirmation};
use crate::notification::{toast_xml, NotificationManager};
use crate::registry::{
    after_confirm, after_register, after_sweep, confirmation_by, confirmation_views, distinct_ids,
    holds, ids_of, swept, synthesized, text_views, Actor, ActorView, ConfirmationRegistry,
    PendingEntryView, CONFIRMATION_TIMEOUT_SECS,
};
use crate::time::Timestamp;
use std::path::PathBuf;
use vstd::prelude::*;

verus! {

/// The application under whose name toasts are shown.
pub const APP_ID: &'static str = "NotificationAgent";

/// What to present for an alert.
#[derive(Debug, PartialEq, Eq)]
pub struct Presentation {
    /// The sound to play, without waiting for it.
    pub sound_file: String,
    /// The toast to show.
    pub toast_xml: String,
    /// Seconds after which the alert resolves itself if nobody confirms it;
    /// `None` for an alert that asks for no confirmation.
    pub timeout_secs: Option<u64>,
}

/// What a [`Presentation`] holds.
pub struct PresentationView {
    pub sound_file: Seq<char>,
    pub toast_xml: Seq<char>,
    pub timeout_secs: Option<u64>,
}

impl View for Presentation {
    type V = PresentationView;

    open spec fn view(&self) -> PresentationView {
        PresentationView {
            sound_file: self.sound_file@,
            toast_xml: self.toast_xml@,
            timeout_secs: self.timeout_secs,
        }
    }
}

/// What is presented for an alert.
pub open spec fn presentation_of(alert: AlertView) -> PresentationView {
    PresentationView {
        sound_file: alert.sound(),
        toast_xml: toast_xml(alert),
        timeout_secs: if alert.requires_confirmation {
            Some(CONFIRMATION_TIMEOUT_SECS)
        } else {
            None
        },
    }
}

/// Dispatches inbound alerts and tracks their confirmation.
pub struct AlertHandler {
    notification_manager: NotificationManager,
    audio_player: AudioPlayer,
    registry: ConfirmationRegistry,
}

impl AlertHandler {
    /// The alerts that await confirmation.
    pub closed spec fn pending(&self) -> Seq<PendingEntryView> {
        self.registry.pending()
    }

    /// The client on whose behalf confirmations are sent.
    pub closed spec fn client(&self) -> Seq<char> {
        self.registry.client()
    }

    /// The identity under which alerts are confirmed.
    pub closed spec fn local_actor(&self) -> ActorView {
        self.registry.local_actor()
    }

    /// The directory in which the sounds of alerts are found.
    pub closed spec fn directory(&self) -> PathBuf {
        self.audio_player.directory()
    }

    /// The application under whose name toasts are shown.
    pub closed spec fn app(&self) -> Seq<char> {
        self.notification_manager.app()
    }

    /// A dispatcher without pending alerts for the client `client_id`, which
    /// confirms as `local`, finds its sounds in `sounds_dir` and shows its
    /// toasts as [`APP_ID`].
    pub fn new(sounds_dir: PathBuf, client_id: String, local: Actor) -> (handler: AlertHandler)
        ensures
            handler.pending() == Seq::<PendingEntryView>::empty(),
            handler.client() == client_id@,
            handler.local_actor() == local@,
            handler.directory() == sounds_dir,
            handler.app() == APP_ID@,
    {
        AlertHandler {
            notification_manager: NotificationManager::new(APP_ID),
            audio_player: AudioPlayer::new(sounds_dir),
            registry: ConfirmationRegistry::new(client_id, local),
        }
    }

    /// The player of the dispatcher's sounds: the one of the directory that
    /// the dispatcher was made with.
    pub fn audio_player(&self) -> (player: &AudioPlayer)
        ensures
            player.directory() == self.directory(),
    {
        &self.audio_player
    }

    /// The manager of the dispatcher's toasts: the one of the application
    /// under whose name the dispatcher shows them.
    pub fn notification_manager(&self) -> (manager: &NotificationManager)
        ensures
            manager.app() == self.app(),
    {
        &self.notification_manager
    }

    /// Handle an incoming alert at `now`: an alert that asks for confirmation
    /// becomes pending, and the caller is told what to present.
    pub fn handle_alert(&mut self, alert: Alert, now: Timestamp) -> (plan: Presentation)
        ensures
            plan@ == presentation_of(alert@),
            final(self).pending() == if alert@.requires_confirmation {
                after_register(
                    old(self).pending(),
                    PendingEntryView { alert: alert@, registered_at: now },
                )
            } else {
                old(self).pending()
            },
            final(self).client() == old(self).client(),
            final(self).local_actor() == old(self).local_actor(),
            final(self).directory() == old(self).directory(),
            final(self).app() == old(self).app(),
    {
        let sound_file = alert.get_sound_file();
        let toast_xml = self.notification_manager.create_toast_xml(&alert);
        if alert.requires_confirmation {
            self.registry.register(alert, now);
            Presentation { sound_file, toast_xml, timeout_secs: Some(CONFIRMATION_TIMEOUT_SECS) }
        } else {
            Presentation { sound_file, toast_xml, timeout_secs: None }
        }
    }

    /// Manually confirm an alert at `now`, as the local actor. `None` means
    /// that no such alert is pending; that is no failure.
    pub fn confirm_alert(&mut self, alert_id: &str, now: Timestamp) -> (outcome: Option<
        Confirmation,
    >)
        ensures
            final(self).pending() == after_confirm(old(self).pending(), alert_id@),
            match outcome {
                Some(confirmation) => holds(old(self).pending(), alert_id@) && confirmation@
                    == confirmation_by(
                    alert_id@,
                    old(self).client(),
                    old(self).local_actor(),
                    now,
                ),
                None => !holds(old(self).pending(), alert_id@),
            },
            final(self).client() == old(self).client(),
            final(self).local_actor() == old(self).local_actor(),
            final(self).directory() == old(self).directory(),
            final(self).app() == old(self).app(),
    {
        let actor = self.registry.local().clone();
        self.registry.confirm(alert_id, &actor, now)
    }

    /// Resolves, as the local actor, every pending alert that has waited for
    /// the confirmation timeout at `now`, and hands back the confirmations to
    /// send.
    pub fn expire_alerts(&mut self, now: Timestamp) -> (confirmations: Vec<Confirmation>)
        ensures
            final(self).pending() == after_sweep(
                old(self).pending(),
                CONFIRMATION_TIMEOUT_SECS,
                now,
            ),
            confirmation_views(confirmations@) == synthesized(
                swept(old(self).pending(), CONFIRMATION_TIMEOUT_SECS, now),
                old(self).client(),
                old(self).local_actor(),
                now,
            ),
            final(self).client() == old(self).client(),
            final(self).local_actor() == old(self).local_actor(),
            final(self).directory() == old(self).directory(),
            final(self).app() == old(self).app(),
    {
        self.registry.sweep_expired(now, CONFIRMATION_TIMEOUT_SECS)
    }

    /// Get pending confirmations count.
    pub fn pending_count(&self) -> (n: usize)
        ensures
            n == self.pending().len(),
            distinct_ids(self.pending()),
    {
        self.registry.count()
    }

    /// Get all pending alert IDs.
    pub fn get_pending_alerts(&self) -> (ids: Vec<String>)
        ensures
            text_views(ids@) == ids_of(self.pending()),
            distinct_ids(self.pending()),
    {
        self.registry.ids()
    }
}

} // verus!

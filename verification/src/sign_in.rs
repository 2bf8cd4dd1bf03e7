//! Signing in: this device's key, a recovery phrase and its check, the
//! account step, passkeys, and approving another device.

use vstd::prelude::*;

use crate::model::{
    fresh_account, fresh_unlock, Account, Ducktape, Effect, Overlay, Phrase, Recover, SignIn,
    Stage, Unlock,
};
use crate::phrase::{account_error, account_error_text, ascending_below, normalize_phrase, normalized, quiz_matches, quiz_passes, quiz_positions};
use crate::text::{chars_of, string_of, trim, trimmed, wipe, words, words_of};

verus! {

/// The sign-in state with its failure cleared.
pub open spec fn error_cleared(old: SignIn, new: SignIn) -> bool {
    &&& new == (SignIn { unlock_error: new.unlock_error, ..old })
    &&& new.unlock_error@.len() == 0
}

/// The sign-in state with its failure set to `said`.
pub open spec fn error_said(old: SignIn, new: SignIn, said: Seq<char>) -> bool {
    &&& new == (SignIn { unlock_error: new.unlock_error, ..old })
    &&& new.unlock_error@ == said
}

impl Ducktape {
    /// What `open_device_key()` does: this device's key is opened for the
    /// network in hand and seated — made there the first time this device
    /// meets the network. Nothing to do while one is being opened, when
    /// one is seated, when the person locked it, or with no network.
    pub open spec fn key_opening(old: Self, new: Self, effects: Seq<Effect>) -> bool {
        if old.sign_in.seating || old.sign_in.locked || old.signer_key@.len() > 0 || old.keyring@.len() == 0 {
            new == old && effects.len() == 0
        } else {
            &&& new == (Ducktape { sign_in: SignIn { seating: true, ..old.sign_in }, ..old })
            &&& effects == seq![Effect::OpenDeviceKey { keyring: old.keyring, legacy: old.key_exists }]
        }
    }

    pub fn open_device_key(&mut self) -> (effects: Vec<Effect>)
        ensures
            Self::key_opening(*old(self), *final(self), effects@),
    {
        if self.sign_in.seating || self.sign_in.locked || self.signer_key.unicode_len() > 0
            || self.keyring.unicode_len() == 0 {
            return Vec::new();
        }
        self.sign_in.seating = true;
        let e = Effect::OpenDeviceKey { keyring: self.keyring.clone(), legacy: self.key_exists };
        let effects = vec![e];
        assert(effects@ == seq![e]);
        effects
    }

    /// What `password_typed` does, from `old` to `new`.
    pub open spec fn after_password_typed(old: Self, new: Self, text: String) -> bool {
        &&& error_cleared(old.sign_in, new.sign_in)
        &&& old.stage matches Stage::Unlock(step) ==> new.stage == Stage::Unlock(Unlock { password: text, ..step })
        &&& !(old.stage is Unlock) ==> new.stage == old.stage
        &&& new == (Ducktape { stage: new.stage, sign_in: new.sign_in, ..old })
    }

    /// The password typed on the key step; the last failure goes.
    pub fn password_typed(&mut self, text: String)
        ensures
            Self::after_password_typed(*old(self), *final(self), text),
    {
        if let Stage::Unlock(step) = &mut self.stage {
            wipe(&mut step.password);
            step.password = text;
        }
        self.sign_in.unlock_error = String::new();
    }

    /// What `unlock_submit()` does. With no password-locked key, Unlock
    /// reopens this device's OS-kept key (after a Lock). With one, its
    /// typed password opens it (and it moves into the OS): the password is
    /// copied, not taken, so a failed try leaves model and field agreeing.
    pub open spec fn unlock_submitted(old: Self, new: Self, effects: Seq<Effect>) -> bool {
        let typed = match old.stage { Stage::Unlock(step) => step.password@, _ => Seq::empty() };
        let cleared = Ducktape { sign_in: SignIn { locked: false, unlock_error: new.sign_in.unlock_error, ..old.sign_in }, ..old };
        if old.sign_in.unlock_busy {
            new == old && effects.len() == 0
        } else if !old.key_exists {
            &&& cleared.sign_in.unlock_error@.len() == 0
            &&& Self::key_opening(cleared, new, effects)
        } else if typed.len() == 0 {
            &&& new == cleared
            &&& new.sign_in.unlock_error@ == "Type this key's password first."@
            &&& effects.len() == 0
        } else {
            &&& new == (Ducktape { sign_in: SignIn { unlock_busy: true, ..cleared.sign_in }, ..cleared })
            &&& new.sign_in.unlock_error@.len() == 0
            &&& effects.len() == 1
            &&& effects[0] matches Effect::OpenLockedKey { keyring, password } && keyring == old.keyring && password@ == typed
        }
    }

    pub fn unlock_submit(&mut self) -> (effects: Vec<Effect>)
        ensures
            Self::unlock_submitted(*old(self), *final(self), effects@),
    {
        if self.sign_in.unlock_busy {
            return Vec::new();
        }
        self.sign_in.locked = false;
        self.sign_in.unlock_error = String::new();
        if !self.key_exists {
            return self.open_device_key();
        }
        let typed = match &self.stage {
            Stage::Unlock(step) => step.password.clone(),
            _ => String::new(),
        };
        if typed.unicode_len() == 0 {
            self.sign_in.unlock_error = String::from_str("Type this key's password first.");
            return Vec::new();
        }
        self.sign_in.unlock_busy = true;
        let e = Effect::OpenLockedKey { keyring: self.keyring.clone(), password: typed };
        let effects = vec![e];
        assert(effects@ == seq![e]);
        effects
    }

    /// What `unlocked(pubkey)` does: the key is seated. The key step stays
    /// up, its password gone, until the node says whether the key holds an
    /// account; a key that lands after the network was left seats nothing
    /// on screen.
    pub open spec fn key_seated(old: Self, new: Self, pubkey: String, effects: Seq<Effect>) -> bool {
        &&& new == (Ducktape {
            sign_in: SignIn { unlock_busy: false, seating: false, locked: false, ..old.sign_in },
            key_exists: false,
            signer_key: pubkey,
            stage: new.stage,
            ..old
        })
        &&& (old.stage is Connect) ==> new.stage == old.stage
        &&& !(old.stage is Connect) ==> (new.stage matches Stage::Unlock(step) && step.awaiting && step.password@.len() == 0)
        &&& effects == new.resolve_effects()
    }

    pub fn unlocked(&mut self, pubkey: String) -> (effects: Vec<Effect>)
        ensures
            Self::key_seated(*old(self), *final(self), pubkey, effects@),
    {
        self.sign_in.unlock_busy = false;
        self.key_exists = false;
        self.sign_in.seating = false;
        self.sign_in.locked = false;
        self.signer_key = pubkey;
        if !matches!(self.stage, Stage::Connect) {
            let mut step = Unlock::new();
            step.awaiting = true;
            self.set_stage(Stage::Unlock(step));
        }
        self.resolve_account()
    }

    /// What `device_key` does, from `old` to `new`.
    pub open spec fn after_device_key(old: Self, new: Self, found: Result<Option<String>, String>, effects: Seq<Effect>) -> bool {
        let mid = Ducktape { sign_in: SignIn { seating: false, ..old.sign_in }, ..old };
        match found {
            Ok(Some(pubkey)) => Self::key_seated(Ducktape { key_exists: false, ..mid }, new, pubkey, effects),
            Ok(None) => new == mid && effects.len() == 0,
            Err(e) => new == (Ducktape { sign_in: SignIn { unlock_error: e, ..mid.sign_in }, ..mid }) && effects.len() == 0,
        }
    }

    /// This device's key, opened or made on reaching a network: its public
    /// half; `None` when only a password-locked key is here.
    pub fn device_key(&mut self, found: Result<Option<String>, String>) -> (effects: Vec<Effect>)
        ensures
            Self::after_device_key(*old(self), *final(self), found, effects@),
    {
        self.sign_in.seating = false;
        match found {
            Ok(Some(pubkey)) => {
                self.key_exists = false;
                self.unlocked(pubkey)
            },
            Ok(None) => Vec::new(),
            Err(error) => {
                self.sign_in.unlock_error = error;
                Vec::new()
            },
        }
    }

    /// What `unlock_failed` does, from `old` to `new`.
    pub open spec fn after_unlock_failed(old: Self, new: Self, error: String, key_exists: bool) -> bool {
        new == (Ducktape {
            key_exists,
            sign_in: SignIn { unlock_busy: false, unlock_error: error, ..old.sign_in },
            ..old
        })
    }

    /// The key did not open: why, and whether a password-locked key is
    /// (still) here.
    pub fn unlock_failed(&mut self, error: String, key_exists: bool)
        ensures
            Self::after_unlock_failed(*old(self), *final(self), error, key_exists),
    {
        self.key_exists = key_exists;
        self.sign_in.unlock_busy = false;
        self.sign_in.unlock_error = error;
    }

    /// What `lock` does, from `old` to `new`.
    pub open spec fn after_lock(old: Self, new: Self, effects: Seq<Effect>) -> bool {
        &&& new == (Ducktape {
            overlay: crate::overlay::menus_closed(old.overlay),
            sign_in: SignIn { locked: true, ..old.sign_in },
            signer_key: new.signer_key,
            account: None,
            stage: new.stage,
            ..old
        })
        &&& new.signer_key@.len() == 0
        &&& fresh_unlock(new.stage)
        &&& effects == seq![Effect::Lock]
    }

    /// Locked on purpose: the key is not reopened until Unlock.
    pub fn lock(&mut self) -> (effects: Vec<Effect>)
        ensures
            Self::after_lock(*old(self), *final(self), effects@),
    {
        self.close_menu();
        self.sign_in.locked = true;
        wipe(&mut self.signer_key);
        self.account = None;
        self.set_stage(Stage::Unlock(Unlock::new()));
        let effects = vec![Effect::Lock];
        assert(effects@ == seq![Effect::Lock]);
        effects
    }

    /// What `browse_without_key` does, from `old` to `new`.
    pub open spec fn after_browse_without_key(old: Self, new: Self) -> bool {
        &&& error_cleared(old.sign_in, new.sign_in)
        &&& (old.stage matches Stage::Unlock(step) && step.awaiting) ==> (new.stage matches Stage::Unlock(now) && now.awaiting && now.password@.len() == 0)
        &&& !(old.stage matches Stage::Unlock(step) && step.awaiting) ==> new.stage is Desk
        &&& new == (Ducktape { stage: new.stage, sign_in: new.sign_in, ..old })
    }

    /// Reading opens the desk, unless the key is seated already and the
    /// node's answer is on its way: that answer decides.
    pub fn browse_without_key(&mut self)
        ensures
            Self::after_browse_without_key(*old(self), *final(self)),
    {
        let awaiting = match &self.stage {
            Stage::Unlock(step) => step.awaiting,
            _ => false,
        };
        if awaiting {
            if let Stage::Unlock(step) = &mut self.stage {
                wipe(&mut step.password);
            }
        } else {
            self.set_stage(Stage::Desk);
        }
        self.sign_in.unlock_error = String::new();
    }

    /// What `sign_in_again` does, from `old` to `new`.
    pub open spec fn after_sign_in_again(old: Self, new: Self, effects: Seq<Effect>) -> bool {
        let mid = Ducktape { sign_in: SignIn { locked: false, ..old.sign_in }, stage: new.stage, ..old };
        &&& fresh_unlock(new.stage)
        &&& Self::key_opening(mid, new, effects)
    }

    /// "Sign in": the key step, and this device's key opened again.
    pub fn sign_in_again(&mut self) -> (effects: Vec<Effect>)
        ensures
            Self::after_sign_in_again(*old(self), *final(self), effects@),
    {
        self.sign_in.locked = false;
        self.set_stage(Stage::Unlock(Unlock::new()));
        self.open_device_key()
    }

    /// What `recovery_key_start` does, from `old` to `new`.
    pub open spec fn after_recovery_key_start(old: Self, new: Self, words: String) -> bool {
        &&& new == (Ducktape {
            overlay: crate::overlay::menus_closed(old.overlay),
            sign_in: new.sign_in,
            stage: new.stage,
            ..old
        })
        &&& error_cleared(old.sign_in, new.sign_in)
        &&& new.stage matches Stage::Phrase(step) && step.words == words && step.quiz is None
            && step.answers[0]@.len() == 0 && step.answers[1]@.len() == 0 && step.answers[2]@.len() == 0
    }

    /// A new recovery key, from the account menu: its `words`, to write down.
    pub fn recovery_key_start(&mut self, words: String)
        ensures
            Self::after_recovery_key_start(*old(self), *final(self), words),
    {
        self.close_menu();
        self.sign_in.unlock_error = String::new();
        self.set_stage(Stage::Phrase(Phrase {
            words,
            quiz: None,
            answers: [String::new(), String::new(), String::new()],
        }));
    }

    /// What `leave_phrase` does, from `old` to `new`.
    pub open spec fn after_leave_phrase(old: Self, new: Self) -> bool {
        &&& error_cleared(old.sign_in, new.sign_in)
        &&& (old.stage is Phrase) ==> new.stage is Desk
        &&& !(old.stage is Phrase) ==> new.stage == old.stage
        &&& new == (Ducktape { stage: new.stage, sign_in: new.sign_in, ..old })
    }

    /// The recovery phrase and its check, gone once passed (or abandoned):
    /// back to the desk they were opened from.
    pub fn leave_phrase(&mut self)
        ensures
            Self::after_leave_phrase(*old(self), *final(self)),
    {
        if matches!(self.stage, Stage::Phrase(_)) {
            self.set_stage(Stage::Desk);
        }
        self.sign_in.unlock_error = String::new();
    }

    /// What `phrase_written_down` does, from `old` to `new`.
    pub open spec fn after_phrase_written_down(old: Self, new: Self) -> bool {
        &&& error_cleared(old.sign_in, new.sign_in)
        &&& old.stage matches Stage::Phrase(step) ==> (new.stage matches Stage::Phrase(now)
            && now.words == step.words && now.answers == step.answers
            && (now.quiz matches Some(asked) && ascending_below(asked, words_of(step.words@).len() as usize)))
        &&& !(old.stage is Phrase) ==> new.stage == old.stage
        &&& new == (Ducktape { stage: new.stage, sign_in: new.sign_in, ..old })
    }

    /// "I wrote it down": three of the words asked back.
    pub fn phrase_written_down(&mut self)
        ensures
            Self::after_phrase_written_down(*old(self), *final(self)),
    {
        if let Stage::Phrase(step) = &mut self.stage {
            let count = words(step.words.as_str()).len();
            step.quiz = Some(quiz_positions(count));
        }
        self.sign_in.unlock_error = String::new();
    }

    /// What `phrase_word_typed` does, from `old` to `new`.
    pub open spec fn after_phrase_word_typed(old: Self, new: Self, nth: usize, text: String) -> bool {
        &&& error_cleared(old.sign_in, new.sign_in)
        &&& old.stage matches Stage::Phrase(step) ==> (nth < 3 ==> (new.stage matches Stage::Phrase(now)
            && now.words == step.words && now.quiz == step.quiz
            && now.answers@ == step.answers@.update(nth as int, text)))
        &&& !(old.stage matches Stage::Phrase(step) && nth < 3) ==> new.stage == old.stage
        &&& new == (Ducktape { stage: new.stage, sign_in: new.sign_in, ..old })
    }

    /// The `nth` answer typed.
    pub fn phrase_word_typed(&mut self, nth: usize, text: String)
        ensures
            Self::after_phrase_word_typed(*old(self), *final(self), nth, text),
    {
        if let Stage::Phrase(step) = &mut self.stage {
            if nth < 3 {
                let ghost before = step.answers@;
                wipe(&mut step.answers[nth]);
                step.answers[nth] = text;
                assert(step.answers@ =~= before.update(nth as int, text));
            }
        }
        self.sign_in.unlock_error = String::new();
    }

    /// What `phrase_check_submit()` does: the words checked, the key they
    /// make goes onto the account.
    pub open spec fn phrase_checked(old: Self, new: Self, effects: Seq<Effect>) -> bool {
        match old.stage {
            Stage::Phrase(step) => match step.quiz {
                Some(asked) => if old.sign_in.unlock_busy {
                    new == old && effects.len() == 0
                } else if !quiz_passes(step.words@, asked, seq![step.answers[0]@, step.answers[1]@, step.answers[2]@]) {
                    &&& error_said(old.sign_in, new.sign_in, "Those words don't match your phrase. Check them, or show the phrase again."@)
                    &&& new == (Ducktape { sign_in: new.sign_in, ..old })
                    &&& effects.len() == 0
                } else {
                    &&& new == (Ducktape { sign_in: SignIn { unlock_busy: true, ..old.sign_in }, ..old })
                    &&& effects == seq![Effect::AddRecoveryKey { node: old.connected_rpc, network: old.network, phrase: step.words }]
                },
                None => new == old && effects.len() == 0,
            },
            _ => new == old && effects.len() == 0,
        }
    }

    pub fn phrase_check_submit(&mut self) -> (effects: Vec<Effect>)
        ensures
            Self::phrase_checked(*old(self), *final(self), effects@),
    {
        let matched = match &self.stage {
            Stage::Phrase(step) => match step.quiz {
                Some(asked) => quiz_matches(step.words.as_str(), asked, &step.answers),
                None => return Vec::new(),
            },
            _ => return Vec::new(),
        };
        if self.sign_in.unlock_busy {
            return Vec::new();
        }
        if !matched {
            self.sign_in.unlock_error = String::from_str("Those words don't match your phrase. Check them, or show the phrase again.");
            return Vec::new();
        }
        // the words are copied only once they leave with the effect
        let phrase = match &self.stage {
            Stage::Phrase(step) => step.words.clone(),
            _ => String::new(),
        };
        self.sign_in.unlock_busy = true;
        let e = Effect::AddRecoveryKey { node: self.connected_rpc.clone(), network: self.network.clone(), phrase };
        let effects = vec![e];
        assert(effects@ == seq![e]);
        effects
    }

    /// What `recovery_key_added` does, from `old` to `new`.
    pub open spec fn after_recovery_key_added(old: Self, new: Self, added: Result<(), String>) -> bool {
        let idle = Ducktape { sign_in: SignIn { unlock_busy: false, ..old.sign_in }, ..old };
        match added {
            Ok(()) => {
                &&& new == (Ducktape { stage: new.stage, sign_in: new.sign_in, toast: new.toast, toast_age: 0, ..idle })
                &&& error_cleared(idle.sign_in, new.sign_in)
                &&& (old.stage is Phrase) ==> new.stage is Desk
                &&& !(old.stage is Phrase) ==> new.stage == old.stage
                &&& new.toast@ == "Recovery key added. Keep the paper somewhere safe."@
            },
            Err(e) => new == (Ducktape { sign_in: SignIn { unlock_error: e, ..idle.sign_in }, ..idle }),
        }
    }

    /// The new recovery key is on the account, or was refused.
    pub fn recovery_key_added(&mut self, added: Result<(), String>)
        ensures
            Self::after_recovery_key_added(*old(self), *final(self), added),
    {
        self.sign_in.unlock_busy = false;
        match added {
            Ok(()) => {
                self.leave_phrase();
                self.notice(String::from_str("Recovery key added. Keep the paper somewhere safe."));
            },
            Err(error) => {
                self.sign_in.unlock_error = error;
            },
        }
    }

    /// What `phrase_show_again` does, from `old` to `new`.
    pub open spec fn after_phrase_show_again(old: Self, new: Self) -> bool {
        &&& error_cleared(old.sign_in, new.sign_in)
        &&& old.stage matches Stage::Phrase(step) ==> new.stage matches Stage::Phrase(now)
            && now.words == step.words && now.quiz is None
            && now.answers[0]@.len() == 0 && now.answers[1]@.len() == 0 && now.answers[2]@.len() == 0
        &&& !(old.stage is Phrase) ==> new.stage == old.stage
        &&& new == (Ducktape { stage: new.stage, sign_in: new.sign_in, ..old })
    }

    /// "Show the phrase again": the check and its answers go.
    pub fn phrase_show_again(&mut self)
        ensures
            Self::after_phrase_show_again(*old(self), *final(self)),
    {
        if let Stage::Phrase(step) = &mut self.stage {
            step.quiz = None;
            wipe(&mut step.answers[0]);
            wipe(&mut step.answers[1]);
            wipe(&mut step.answers[2]);
        }
        self.sign_in.unlock_error = String::new();
    }

    /// What `restore_phrase_typed` does, from `old` to `new`.
    pub open spec fn after_restore_phrase_typed(old: Self, new: Self, text: String) -> bool {
        &&& error_cleared(old.sign_in, new.sign_in)
        &&& old.stage matches Stage::Recover(step) ==> new.stage == Stage::Recover(Recover { phrase: text, ..step })
        &&& !(old.stage is Recover) ==> new.stage == old.stage
        &&& new == (Ducktape { stage: new.stage, sign_in: new.sign_in, ..old })
    }

    /// The recovery key's words being typed.
    pub fn restore_phrase_typed(&mut self, text: String)
        ensures
            Self::after_restore_phrase_typed(*old(self), *final(self), text),
    {
        if let Stage::Recover(step) = &mut self.stage {
            wipe(&mut step.phrase);
            step.phrase = text;
        }
        self.sign_in.unlock_error = String::new();
    }

    /// What `recover_show` does, from `old` to `new`.
    pub open spec fn after_recover_show(old: Self, new: Self) -> bool {
        &&& error_cleared(old.sign_in, new.sign_in)
        &&& old.stage matches Stage::Account(step) ==> new.stage matches Stage::Recover(now)
            && now.name == step.name && now.phrase@.len() == 0
        &&& !(old.stage is Account) ==> new.stage == old.stage
        &&& new == (Ducktape { stage: new.stage, sign_in: new.sign_in, ..old })
    }

    /// "Use a recovery key", off the account step: the name typed there is
    /// kept for "← Back".
    pub fn recover_show(&mut self)
        ensures
            Self::after_recover_show(*old(self), *final(self)),
    {
        let name = match &self.stage {
            Stage::Account(step) => Some(step.name.clone()),
            _ => None,
        };
        if let Some(name) = name {
            self.set_stage(Stage::Recover(Recover { phrase: String::new(), name }));
        }
        self.sign_in.unlock_error = String::new();
    }

    /// What `recover_cancel` does, from `old` to `new`.
    pub open spec fn after_recover_cancel(old: Self, new: Self) -> bool {
        &&& error_cleared(old.sign_in, new.sign_in)
        &&& old.stage matches Stage::Recover(step) ==> fresh_account(new.stage, step.name@)
        &&& !(old.stage is Recover) ==> new.stage == old.stage
        &&& new == (Ducktape { stage: new.stage, sign_in: new.sign_in, ..old })
    }

    /// "← Back" to the account step, its name as it was.
    pub fn recover_cancel(&mut self)
        ensures
            Self::after_recover_cancel(*old(self), *final(self)),
    {
        let name = match &self.stage {
            Stage::Recover(step) => Some(step.name.clone()),
            _ => None,
        };
        if let Some(name) = name {
            let mut step = Account::new();
            step.name = name;
            self.set_stage(Stage::Account(step));
        }
        self.sign_in.unlock_error = String::new();
    }

    /// The recovery phrase being typed, folded as the checker reads it.
    pub fn recovery_phrase(&self) -> (phrase: Option<String>)
        ensures
            match self.stage {
                Stage::Recover(step) => phrase matches Some(p) && p@ == normalized(step.phrase@),
                _ => phrase is None,
            },
    {
        match &self.stage {
            Stage::Recover(step) => Some(normalize_phrase(step.phrase.as_str())),
            _ => None,
        }
    }

    /// What `recover_submit(valid)` does, `valid` saying whether the folded
    /// phrase is a recovery key: it joins the account with it.
    pub open spec fn recover_submitted(old: Self, new: Self, valid: bool, effects: Seq<Effect>) -> bool {
        match old.stage {
            Stage::Recover(step) => if old.sign_in.unlock_busy {
                new == old && effects.len() == 0
            } else if !valid {
                &&& error_said(old.sign_in, new.sign_in, "Those words aren't a recovery key — check each one."@)
                &&& new == (Ducktape { sign_in: new.sign_in, ..old })
                &&& effects.len() == 0
            } else {
                &&& new == (Ducktape { sign_in: SignIn { unlock_busy: true, unlock_error: new.sign_in.unlock_error, ..old.sign_in }, ..old })
                &&& new.sign_in.unlock_error@.len() == 0
                &&& effects.len() == 1
                &&& effects[0] matches Effect::JoinWithRecoveryKey { node, network, phrase }
                    && node == old.connected_rpc && network == old.network && phrase@ == normalized(step.phrase@)
            },
            _ => new == old && effects.len() == 0,
        }
    }

    pub fn recover_submit(&mut self, valid: bool) -> (effects: Vec<Effect>)
        ensures
            Self::recover_submitted(*old(self), *final(self), valid, effects@),
    {
        let recovering = match &self.stage {
            Stage::Recover(_) => true,
            _ => false,
        };
        if !recovering || self.sign_in.unlock_busy {
            return Vec::new();
        }
        if !valid {
            self.sign_in.unlock_error = String::from_str("Those words aren't a recovery key — check each one.");
            return Vec::new();
        }
        // the folded phrase is made only once it leaves with the effect
        let phrase = match self.recovery_phrase() {
            Some(phrase) => phrase,
            None => return Vec::new(),
        };
        self.sign_in.unlock_busy = true;
        self.sign_in.unlock_error = String::new();
        let e = Effect::JoinWithRecoveryKey { node: self.connected_rpc.clone(), network: self.network.clone(), phrase };
        let effects = vec![e];
        assert(effects@ == seq![e]);
        effects
    }

    /// What `link_start` does, from `old` to `new`.
    pub open spec fn after_link_start(old: Self, new: Self, code: String, effects: Seq<Effect>) -> bool {
        match old.stage {
            Stage::Account(step) => if step.linking {
                new == old && effects.len() == 0
            } else {
                &&& error_cleared(old.sign_in, new.sign_in)
                &&& new.stage == Stage::Account(Account { link_code: code, linking: true, ..step })
                &&& new == (Ducktape { stage: new.stage, sign_in: new.sign_in, ..old })
                &&& effects == seq![Effect::JoinFromDevice { node: old.connected_rpc, network: old.network, code: new.stage->Account_0.link_code }]
            },
            _ => new == old && effects.len() == 0,
        }
    }

    /// "From another device": show `code` and wait for an approval.
    pub fn link_start(&mut self, code: String) -> (effects: Vec<Effect>)
        ensures
            Self::after_link_start(*old(self), *final(self), code, effects@),
    {
        let linking = match &self.stage {
            Stage::Account(step) => step.linking,
            _ => return Vec::new(),
        };
        if linking {
            return Vec::new();
        }
        let e = Effect::JoinFromDevice { node: self.connected_rpc.clone(), network: self.network.clone(), code: code.clone() };
        if let Stage::Account(step) = &mut self.stage {
            step.link_code = code;
            step.linking = true;
        }
        self.sign_in.unlock_error = String::new();
        let effects = vec![e];
        assert(effects@ == seq![e]);
        effects
    }

    /// What `link_cancel` does, from `old` to `new`.
    pub open spec fn after_link_cancel(old: Self, new: Self, effects: Seq<Effect>) -> bool {
        &&& old.stage matches Stage::Account(step) ==> {
            &&& new.stage matches Stage::Account(now) && now == (Account { link_code: now.link_code, linking: false, ..step }) && now.link_code@.len() == 0
            &&& effects == seq![Effect::CancelLink]
        }
        &&& !(old.stage is Account) ==> new.stage == old.stage && effects.len() == 0
        &&& new == (Ducktape { stage: new.stage, ..old })
    }

    /// The wait for another device, dropped.
    pub fn link_cancel(&mut self) -> (effects: Vec<Effect>)
        ensures
            Self::after_link_cancel(*old(self), *final(self), effects@),
    {
        if let Stage::Account(step) = &mut self.stage {
            step.linking = false;
            step.link_code = String::new();
            let effects = vec![Effect::CancelLink];
            assert(effects@ == seq![Effect::CancelLink]);
            return effects;
        }
        Vec::new()
    }

    /// What `joined` does, from `old` to `new`.
    pub open spec fn after_joined(old: Self, new: Self, result: Result<(), String>, effects: Seq<Effect>) -> bool {
        let stopped = match old.stage {
            Stage::Account(step) => Stage::Account(Account { link_code: new.stage->Account_0.link_code, linking: false, ..step }),
            _ => old.stage,
        };
        let idle = Ducktape { sign_in: SignIn { unlock_busy: false, ..old.sign_in }, stage: stopped, ..old };
        &&& (old.stage is Account && result is Err) ==> new.stage->Account_0.link_code@.len() == 0
        &&& match result {
            Ok(()) => {
                &&& new == (Ducktape { stage: new.stage, ..idle })
                &&& (old.stage is Account || old.stage is Recover) ==> new.stage is Desk
                &&& !(old.stage is Account || old.stage is Recover) ==> new.stage == old.stage
                &&& effects == new.resolve_effects()
            },
            Err(e) => {
                &&& new == (Ducktape { sign_in: SignIn { unlock_error: e, ..idle.sign_in }, ..idle })
                &&& effects.len() == 0
            },
        }
    }

    /// Another device or the recovery key added this one (or failed to):
    /// on success, the desk.
    pub fn joined(&mut self, result: Result<(), String>) -> (effects: Vec<Effect>)
        ensures
            Self::after_joined(*old(self), *final(self), result, effects@),
    {
        self.sign_in.unlock_busy = false;
        if let Stage::Account(step) = &mut self.stage {
            step.linking = false;
            step.link_code = String::new();
        }
        match result {
            Ok(()) => {
                if matches!(self.stage, Stage::Account(_) | Stage::Recover(_)) {
                    self.set_stage(Stage::Desk);
                }
                self.resolve_account()
            },
            Err(error) => {
                self.sign_in.unlock_error = error;
                Vec::new()
            },
        }
    }

    /// What `approve_open` does, from `old` to `new`.
    pub open spec fn after_approve_open(old: Self, new: Self) -> bool {
        &&& new == (Ducktape {
            overlay: Some(Overlay::Approve),
            sign_in: SignIn {
                approve_code: new.sign_in.approve_code,
                approve_found: false,
                unlock_error: new.sign_in.unlock_error,
                ..old.sign_in
            },
            ..old
        })
        &&& new.sign_in.approve_code@.len() == 0
        &&& new.sign_in.unlock_error@.len() == 0
    }

    /// "Add a device…", fresh.
    pub fn approve_open(&mut self)
        ensures
            Self::after_approve_open(*old(self), *final(self)),
    {
        self.overlay = Some(Overlay::Approve);
        self.sign_in.approve_code = String::new();
        self.sign_in.approve_found = false;
        self.sign_in.unlock_error = String::new();
    }

    /// What `approve_code_typed` does, from `old` to `new`.
    pub open spec fn after_approve_code_typed(old: Self, new: Self, text: String) -> bool {
        &&& new == (Ducktape {
            sign_in: SignIn { approve_code: text, unlock_error: new.sign_in.unlock_error, ..old.sign_in },
            ..old
        })
        &&& new.sign_in.unlock_error@.len() == 0
    }

    pub fn approve_code_typed(&mut self, text: String)
        ensures
            Self::after_approve_code_typed(*old(self), *final(self), text),
    {
        self.sign_in.approve_code = text;
        self.sign_in.unlock_error = String::new();
    }

    /// What `approve_find` does, from `old` to `new`.
    pub open spec fn after_approve_find(old: Self, new: Self, effects: Seq<Effect>) -> bool {
        &&& old.sign_in.unlock_busy ==> new == old && effects.len() == 0
        &&& !old.sign_in.unlock_busy ==> {
            &&& new == (Ducktape {
                sign_in: SignIn { unlock_busy: true, unlock_error: new.sign_in.unlock_error, ..old.sign_in },
                ..old
            })
            &&& new.sign_in.unlock_error@.len() == 0
            &&& effects == seq![Effect::FindRequest { code: old.sign_in.approve_code }]
        }
    }

    /// The code typed, looked up.
    pub fn approve_find(&mut self) -> (effects: Vec<Effect>)
        ensures
            Self::after_approve_find(*old(self), *final(self), effects@),
    {
        if self.sign_in.unlock_busy {
            return Vec::new();
        }
        let e = Effect::FindRequest { code: self.sign_in.approve_code.clone() };
        self.sign_in.unlock_busy = true;
        self.sign_in.unlock_error = String::new();
        let effects = vec![e];
        assert(effects@ == seq![e]);
        effects
    }

    /// What `approve_found` does, from `old` to `new`.
    pub open spec fn after_approve_found(old: Self, new: Self, found: Result<(), String>) -> bool {
        match found {
            Ok(()) => new == (Ducktape { sign_in: SignIn { unlock_busy: false, approve_found: true, ..old.sign_in }, ..old }),
            Err(e) => new == (Ducktape { sign_in: SignIn { unlock_busy: false, unlock_error: e, ..old.sign_in }, ..old }),
        }
    }

    /// The code's request was found (the shell keeps it), or was not.
    pub fn approve_found(&mut self, found: Result<(), String>)
        ensures
            Self::after_approve_found(*old(self), *final(self), found),
    {
        self.sign_in.unlock_busy = false;
        match found {
            Ok(()) => self.sign_in.approve_found = true,
            Err(error) => self.sign_in.unlock_error = error,
        }
    }

    /// What `approve_confirm` does, from `old` to `new`.
    pub open spec fn after_approve_confirm(old: Self, new: Self, effects: Seq<Effect>) -> bool {
        match old.account {
            Some(Some((number, _))) if old.sign_in.approve_found && !old.sign_in.unlock_busy => {
                &&& new == (Ducktape { sign_in: SignIn { unlock_busy: true, ..old.sign_in }, ..old })
                &&& effects == seq![Effect::Approve {
                    node: old.connected_rpc,
                    network: old.network,
                    account: number,
                    code: old.sign_in.approve_code,
                }]
            },
            _ => new == old && effects.len() == 0,
        }
    }

    /// Approve the request found, for the account the seated key holds:
    /// nothing without both.
    pub fn approve_confirm(&mut self) -> (effects: Vec<Effect>)
        ensures
            Self::after_approve_confirm(*old(self), *final(self), effects@),
    {
        let number = match &self.account {
            Some(Some((number, _))) => *number,
            _ => return Vec::new(),
        };
        if !self.sign_in.approve_found || self.sign_in.unlock_busy {
            return Vec::new();
        }
        self.sign_in.unlock_busy = true;
        let e = Effect::Approve {
            node: self.connected_rpc.clone(),
            network: self.network.clone(),
            account: number,
            code: self.sign_in.approve_code.clone(),
        };
        let effects = vec![e];
        assert(effects@ == seq![e]);
        effects
    }

    /// What `approve_done` does, from `old` to `new`.
    pub open spec fn after_approve_done(old: Self, new: Self, done: Result<(), String>) -> bool {
        let idle = Ducktape { sign_in: SignIn { unlock_busy: false, ..old.sign_in }, ..old };
        match done {
            Ok(()) => {
                &&& Self::overlay_closed(idle, Ducktape { toast: idle.toast, toast_age: idle.toast_age, ..new }, Overlay::Approve)
                &&& new.toast_age == 0
                &&& new.toast@ == "Approved. The new device finishes on its own."@
            },
            Err(e) => new == (Ducktape { sign_in: SignIn { unlock_error: e, ..idle.sign_in }, ..idle }),
        }
    }

    /// The approval went through (the dialog closes and says so), or failed.
    pub fn approve_done(&mut self, done: Result<(), String>)
        ensures
            Self::after_approve_done(*old(self), *final(self), done),
    {
        self.sign_in.unlock_busy = false;
        match done {
            Ok(()) => {
                self.close(Overlay::Approve);
                self.notice(String::from_str("Approved. The new device finishes on its own."));
            },
            Err(error) => self.sign_in.unlock_error = error,
        }
    }

    /// What `account_name_typed` does, from `old` to `new`.
    pub open spec fn after_account_name_typed(old: Self, new: Self, text: String) -> bool {
        &&& error_cleared(old.sign_in, new.sign_in)
        &&& old.stage matches Stage::Account(step) ==> new.stage == Stage::Account(Account { name: text, ..step })
        &&& !(old.stage is Account) ==> new.stage == old.stage
        &&& new == (Ducktape { stage: new.stage, sign_in: new.sign_in, ..old })
    }

    /// The new account's name typed.
    pub fn account_name_typed(&mut self, text: String)
        ensures
            Self::after_account_name_typed(*old(self), *final(self), text),
    {
        if let Stage::Account(step) = &mut self.stage {
            step.name = text;
        }
        self.sign_in.unlock_error = String::new();
    }

    /// What `passkey(create)` does: a passkey creates an account (`create`)
    /// or admits this device's key into the account it holds. The device
    /// key is seated before either is offered, and it signs the writes.
    pub open spec fn passkey_started(old: Self, new: Self, create: bool, effects: Seq<Effect>) -> bool {
        match old.stage {
            Stage::Account(step) => if old.sign_in.unlock_busy {
                new == old && effects.len() == 0
            } else if old.signer_key@.len() == 0 {
                &&& error_said(old.sign_in, new.sign_in, "Unlock this device's key first."@)
                &&& new == (Ducktape { sign_in: new.sign_in, ..old })
                &&& effects.len() == 0
            } else if create && trimmed(step.name@).len() == 0 {
                &&& error_said(old.sign_in, new.sign_in, "Name your account first."@)
                &&& new == (Ducktape { sign_in: new.sign_in, ..old })
                &&& effects.len() == 0
            } else {
                &&& error_cleared(SignIn { unlock_busy: true, ..old.sign_in }, new.sign_in)
                &&& new == (Ducktape { sign_in: new.sign_in, stage: new.stage, ..old })
                &&& new.stage matches Stage::Account(now) && now == (Account {
                    passkey_phone: false,
                    passkey_qr: now.passkey_qr,
                    passkey_running: true,
                    ..step
                }) && now.passkey_qr@.len() == 0
                &&& effects.len() == 1
                &&& effects[0] matches Effect::Passkey { create: c, node, network, name, pubkey }
                    && c == create && node == old.connected_rpc && network == old.network
                    && name@ == trimmed(step.name@) && pubkey == old.signer_key
            },
            _ => new == old && effects.len() == 0,
        }
    }

    pub fn passkey(&mut self, create: bool) -> (effects: Vec<Effect>)
        ensures
            Self::passkey_started(*old(self), *final(self), create, effects@),
    {
        let typed = match &self.stage {
            Stage::Account(step) => chars_of(step.name.as_str()),
            _ => return Vec::new(),
        };
        let kept = trim(&typed);
        let name = string_of(&kept);
        if self.sign_in.unlock_busy {
            return Vec::new();
        }
        if self.signer_key.unicode_len() == 0 {
            self.sign_in.unlock_error = String::from_str("Unlock this device's key first.");
            return Vec::new();
        }
        if create && name.unicode_len() == 0 {
            self.sign_in.unlock_error = String::from_str("Name your account first.");
            return Vec::new();
        }
        let e = Effect::Passkey {
            create,
            node: self.connected_rpc.clone(),
            network: self.network.clone(),
            name,
            pubkey: self.signer_key.clone(),
        };
        self.sign_in.unlock_busy = true;
        self.sign_in.unlock_error = String::new();
        if let Stage::Account(step) = &mut self.stage {
            step.passkey_phone = false;
            step.passkey_qr = String::new();
            step.passkey_running = true;
        }
        let effects = vec![e];
        assert(effects@ == seq![e]);
        effects
    }

    /// What `passkey_use_phone` does, from `old` to `new`.
    pub open spec fn after_passkey_use_phone(old: Self, new: Self) -> bool {
        &&& old.stage matches Stage::Account(step) ==> new.stage == Stage::Account(Account { passkey_phone: true, ..step })
        &&& !(old.stage is Account) ==> new.stage == old.stage
        &&& new == (Ducktape { stage: new.stage, ..old })
    }

    /// "Use a phone instead": the ceremony shows its QR code.
    pub fn passkey_use_phone(&mut self)
        ensures
            Self::after_passkey_use_phone(*old(self), *final(self)),
    {
        if let Stage::Account(step) = &mut self.stage {
            step.passkey_phone = true;
        }
    }

    /// What `passkey_qr` does, from `old` to `new`.
    pub open spec fn after_passkey_qr(old: Self, new: Self, url: String) -> bool {
        &&& old.stage matches Stage::Account(step) ==> new.stage == Stage::Account(Account { passkey_qr: url, ..step })
        &&& !(old.stage is Account) ==> new.stage == old.stage
        &&& new == (Ducktape { stage: new.stage, ..old })
    }

    /// The QR URL of the touch in flight.
    pub fn passkey_qr(&mut self, url: String)
        ensures
            Self::after_passkey_qr(*old(self), *final(self), url),
    {
        if let Stage::Account(step) = &mut self.stage {
            step.passkey_qr = url;
        }
    }

    /// The passkey ceremony over, however it ended.
    pub fn end_passkey(&mut self)
        ensures
            old(self).stage matches Stage::Account(step) ==> final(self).stage == Stage::Account(Account { passkey_running: false, ..step }),
            !(old(self).stage is Account) ==> final(self).stage == old(self).stage,
            *final(self) == (Ducktape { stage: final(self).stage, sign_in: SignIn { unlock_busy: false, ..old(self).sign_in }, ..*old(self) }),
    {
        if let Stage::Account(step) = &mut self.stage {
            step.passkey_running = false;
        }
        self.sign_in.unlock_busy = false;
    }

    /// What `passkey_cancel` does, from `old` to `new`.
    pub open spec fn after_passkey_cancel(old: Self, new: Self, effects: Seq<Effect>) -> bool {
        &&& old.stage matches Stage::Account(step) ==> new.stage == Stage::Account(Account { passkey_running: false, ..step })
        &&& !(old.stage is Account) ==> new.stage == old.stage
        &&& new == (Ducktape { stage: new.stage, sign_in: SignIn { unlock_busy: false, ..old.sign_in }, ..old })
        &&& effects.len() == 2
        &&& effects[0] == Effect::CancelPasskey
        &&& effects[1] matches Effect::Toast(said) && said@ == "Passkey step cancelled"@
    }

    /// The ceremony cancelled: dropped, and said.
    pub fn passkey_cancel(&mut self) -> (effects: Vec<Effect>)
        ensures
            Self::after_passkey_cancel(*old(self), *final(self), effects@),
    {
        self.end_passkey();
        let toast = Effect::Toast(String::from_str("Passkey step cancelled"));
        let effects = vec![Effect::CancelPasskey, toast];
        assert(effects@ == seq![Effect::CancelPasskey, toast]);
        effects
    }

    /// What `passkey_failed` does, from `old` to `new`.
    pub open spec fn after_passkey_failed(old: Self, new: Self, error: String) -> bool {
        &&& old.stage matches Stage::Account(step) ==> new.stage == Stage::Account(Account { passkey_running: false, ..step })
        &&& !(old.stage is Account) ==> new.stage == old.stage
        &&& new == (Ducktape { stage: new.stage, sign_in: SignIn { unlock_busy: false, unlock_error: error, ..old.sign_in }, ..old })
    }

    pub fn passkey_failed(&mut self, error: String)
        ensures
            Self::after_passkey_failed(*old(self), *final(self), error),
    {
        self.end_passkey();
        self.sign_in.unlock_error = error;
    }

    /// What `passkey_done` does, from `old` to `new`.
    pub open spec fn after_passkey_done(old: Self, new: Self, pubkey: String, effects: Seq<Effect>) -> bool {
        let ended = Ducktape {
            stage: match old.stage {
                Stage::Account(step) => Stage::Account(Account { passkey_running: false, ..step }),
                _ => old.stage,
            },
            sign_in: SignIn { unlock_busy: false, ..old.sign_in },
            ..old
        };
        if pubkey@ != old.signer_key@ {
            new == ended && effects.len() == 0
        } else {
            &&& new == (Ducktape { stage: new.stage, ..ended })
            &&& (old.stage is Account) ==> new.stage is Desk
            &&& !(old.stage is Account) ==> new.stage == old.stage
            &&& effects == new.resolve_effects()
        }
    }

    /// The passkey made (or joined) the account for `pubkey`: the desk, if
    /// that key is still the one seated.
    pub fn passkey_done(&mut self, pubkey: String) -> (effects: Vec<Effect>)
        ensures
            Self::after_passkey_done(*old(self), *final(self), pubkey, effects@),
    {
        self.end_passkey();
        if !crate::text::same_text(pubkey.as_str(), self.signer_key.as_str()) {
            return Vec::new();
        }
        if matches!(self.stage, Stage::Account(_)) {
            self.set_stage(Stage::Desk);
        }
        self.resolve_account()
    }

    /// What `show_create_account` does, from `old` to `new`.
    pub open spec fn after_show_create_account(old: Self, new: Self) -> bool {
        &&& error_cleared(old.sign_in, new.sign_in)
        &&& old.signer_key@.len() > 0 ==> fresh_account(new.stage, Seq::empty())
        &&& old.signer_key@.len() == 0 ==> new.stage == old.stage
        &&& new == (Ducktape { stage: new.stage, sign_in: new.sign_in, ..old })
    }

    /// The rail's "Create account": the account step, for a seated key.
    pub fn show_create_account(&mut self)
        ensures
            Self::after_show_create_account(*old(self), *final(self)),
    {
        if self.signer_key.unicode_len() > 0 {
            let step = Account::new();
            assert(step.name@ =~= Seq::<char>::empty());
            self.set_stage(Stage::Account(step));
        }
        self.sign_in.unlock_error = String::new();
    }

    /// What `create_account_later` does, from `old` to `new`.
    pub open spec fn after_create_account_later(old: Self, new: Self) -> bool {
        &&& error_cleared(old.sign_in, new.sign_in)
        &&& (old.stage is Account) ==> new.stage is Desk
        &&& !(old.stage is Account) ==> new.stage == old.stage
        &&& new == (Ducktape { stage: new.stage, sign_in: new.sign_in, ..old })
    }

    /// "Later": the desk, without an account.
    pub fn create_account_later(&mut self)
        ensures
            Self::after_create_account_later(*old(self), *final(self)),
    {
        if matches!(self.stage, Stage::Account(_)) {
            self.set_stage(Stage::Desk);
        }
        self.sign_in.unlock_error = String::new();
    }

    /// What `create_account_submit()` does: an account under the name
    /// typed, trimmed; an empty name is not sent.
    pub open spec fn creation_submitted(old: Self, new: Self, effects: Seq<Effect>) -> bool {
        match old.stage {
            Stage::Account(step) => if old.sign_in.unlock_busy {
                new == old && effects.len() == 0
            } else if trimmed(step.name@).len() == 0 {
                &&& error_said(old.sign_in, new.sign_in, "Type the name others will see first."@)
                &&& new == (Ducktape { sign_in: new.sign_in, ..old })
                &&& effects.len() == 0
            } else {
                &&& error_cleared(SignIn { unlock_busy: true, ..old.sign_in }, new.sign_in)
                &&& new == (Ducktape { sign_in: new.sign_in, ..old })
                &&& effects.len() == 1
                &&& effects[0] matches Effect::CreateAccount { node, network, name }
                    && node == old.connected_rpc && network == old.network && name@ == trimmed(step.name@)
            },
            _ => new == old && effects.len() == 0,
        }
    }

    #[verifier::rlimit(40)]
    pub fn create_account_submit(&mut self) -> (effects: Vec<Effect>)
        ensures
            Self::creation_submitted(*old(self), *final(self), effects@),
    {
        let typed = match &self.stage {
            Stage::Account(step) => chars_of(step.name.as_str()),
            _ => return Vec::new(),
        };
        let kept = trim(&typed);
        let name = string_of(&kept);
        if self.sign_in.unlock_busy {
            return Vec::new();
        }
        if name.unicode_len() == 0 {
            self.sign_in.unlock_error = String::from_str("Type the name others will see first.");
            return Vec::new();
        }
        self.sign_in.unlock_busy = true;
        self.sign_in.unlock_error = String::new();
        let e = Effect::CreateAccount { node: self.connected_rpc.clone(), network: self.network.clone(), name };
        let effects = vec![e];
        assert(effects@ == seq![e]);
        effects
    }

    /// What `account_created` does, from `old` to `new`.
    pub open spec fn after_account_created(old: Self, new: Self, created: Result<(u64, String), String>) -> bool {
        let idle = Ducktape { sign_in: SignIn { unlock_busy: false, ..old.sign_in }, ..old };
        match created {
            Ok(account) => {
                &&& new == (Ducktape { account: Some(Some(account)), stage: new.stage, ..idle })
                &&& (old.stage is Account) ==> new.stage is Desk
                &&& !(old.stage is Account) ==> new.stage == old.stage
            },
            Err(e) => {
                &&& new == (Ducktape { sign_in: SignIn { unlock_error: new.sign_in.unlock_error, ..idle.sign_in }, ..idle })
                &&& new.sign_in.unlock_error@ == account_error_text(old.network@, e@)
            },
        }
    }

    /// The account was made (the desk), or was not (why, in plain words).
    pub fn account_created(&mut self, created: Result<(u64, String), String>)
        ensures
            Self::after_account_created(*old(self), *final(self), created),
    {
        self.sign_in.unlock_busy = false;
        match created {
            Ok(account) => {
                self.account = Some(Some(account));
                if matches!(self.stage, Stage::Account(_)) {
                    self.set_stage(Stage::Desk);
                }
            },
            Err(error) => {
                self.sign_in.unlock_error = account_error(self.network.as_str(), error);
            },
        }
    }

    /// The passkey QR address, while a ceremony runs and the person picked
    /// the phone.
    pub fn passkey_qr_shown(&self) -> (qr: Option<String>)
        ensures
            match self.stage {
                Stage::Account(step) => if step.passkey_running && step.passkey_phone && step.passkey_qr@.len() > 0 {
                    qr == Some(step.passkey_qr)
                } else {
                    qr is None
                },
                _ => qr is None,
            },
    {
        match &self.stage {
            Stage::Account(step) => {
                if step.passkey_running && step.passkey_phone && step.passkey_qr.unicode_len() > 0 {
                    Some(step.passkey_qr.clone())
                } else {
                    None
                }
            },
            _ => None,
        }
    }
}

} // verus!

//! Input methods: input method editors, voice, handwriting and predictive
//! input. Each handler passes its input through unchanged until an engine
//! is attached to it.
use crate::advanced::InputMethodType;
use crate::stamps::{by_time, new_uuid, same_uuid, time_order, utc_now_millis};
use vstd::prelude::*;

verus! {

/// Input method status.
#[derive(Debug, Clone, Copy, PartialEq, Eq, Structural)]
pub enum InputMethodStatus {
    /// Active
    Active,
    /// Inactive
    Inactive,
    /// Failed
    Error,
}

/// Input configuration.
#[derive(Debug, Clone, Copy)]
pub struct InputConfig {
    /// Enable the input method editor
    pub enable_ime: bool,
    /// Enable voice input
    pub enable_voice: bool,
    /// Enable handwriting input
    pub enable_handwriting: bool,
    /// Enable predictive input
    pub enable_prediction: bool,
    /// Maximum number of input history entries
    pub max_input_history: usize,
    /// Input timeout
    pub input_timeout: u32,
}

/// A handler that turns raw input of one input method into text.
pub trait InputHandler {
    /// Processes input.
    fn process_input(&self, input: &str) -> String;
}

/// IME configuration.
#[derive(Debug, Clone, Copy)]
pub struct IMEConfig {
    /// Enable conversion
    pub enable_conversion: bool,
    /// Enable prediction
    pub enable_prediction: bool,
    /// Enable automatic completion
    pub enable_auto_completion: bool,
}

/// Voice configuration.
#[derive(Debug, Clone, Copy)]
pub struct VoiceConfig {
    /// Enable speech recognition
    pub enable_speech_recognition: bool,
    /// Enable noise reduction
    pub enable_noise_reduction: bool,
    /// Enable voice commands
    pub enable_voice_commands: bool,
}

/// Handwriting configuration.
#[derive(Debug, Clone, Copy)]
pub struct HandwritingConfig {
    /// Enable character recognition
    pub enable_character_recognition: bool,
    /// Enable gesture recognition
    pub enable_gesture_recognition: bool,
    /// Enable stroke analysis
    pub enable_stroke_analysis: bool,
}

/// Prediction configuration.
#[derive(Debug, Clone, Copy)]
pub struct PredictionConfig {
    /// Enable word prediction
    pub enable_word_prediction: bool,
    /// Enable sentence prediction
    pub enable_sentence_prediction: bool,
    /// Enable context awareness
    pub enable_context_awareness: bool,
}

/// IME handler.
pub struct IMEHandler {
    ime_config: IMEConfig,
}

impl IMEHandler {
    /// Its configuration.
    pub closed spec fn config(self) -> IMEConfig {
        self.ime_config
    }

    /// A handler with conversion, prediction and completion on.
    pub fn new() -> (h: Self)
        ensures
            h.config() == (IMEConfig {
                enable_conversion: true,
                enable_prediction: true,
                enable_auto_completion: true,
            }),
    {
        IMEHandler {
            ime_config: IMEConfig {
                enable_conversion: true,
                enable_prediction: true,
                enable_auto_completion: true,
            },
        }
    }
}

impl InputHandler for IMEHandler {
    fn process_input(&self, input: &str) -> (r: String)
        ensures
            r@ == input@,
    {
        input.to_string()
    }
}

/// Voice handler.
pub struct VoiceHandler {
    voice_config: VoiceConfig,
}

impl VoiceHandler {
    /// Its configuration.
    pub closed spec fn config(self) -> VoiceConfig {
        self.voice_config
    }

    /// A handler with recognition, noise reduction and voice commands on.
    pub fn new() -> (h: Self)
        ensures
            h.config() == (VoiceConfig {
                enable_speech_recognition: true,
                enable_noise_reduction: true,
                enable_voice_commands: true,
            }),
    {
        VoiceHandler {
            voice_config: VoiceConfig {
                enable_speech_recognition: true,
                enable_noise_reduction: true,
                enable_voice_commands: true,
            },
        }
    }
}

impl InputHandler for VoiceHandler {
    fn process_input(&self, input: &str) -> (r: String)
        ensures
            r@ == input@,
    {
        input.to_string()
    }
}

/// Handwriting handler.
pub struct HandwritingHandler {
    handwriting_config: HandwritingConfig,
}

impl HandwritingHandler {
    /// Its configuration.
    pub closed spec fn config(self) -> HandwritingConfig {
        self.handwriting_config
    }

    /// A handler with character, gesture and stroke recognition on.
    pub fn new() -> (h: Self)
        ensures
            h.config() == (HandwritingConfig {
                enable_character_recognition: true,
                enable_gesture_recognition: true,
                enable_stroke_analysis: true,
            }),
    {
        HandwritingHandler {
            handwriting_config: HandwritingConfig {
                enable_character_recognition: true,
                enable_gesture_recognition: true,
                enable_stroke_analysis: true,
            },
        }
    }
}

impl InputHandler for HandwritingHandler {
    fn process_input(&self, input: &str) -> (r: String)
        ensures
            r@ == input@,
    {
        input.to_string()
    }
}

/// Prediction handler.
pub struct PredictionHandler {
    prediction_config: PredictionConfig,
}

impl PredictionHandler {
    /// Its configuration.
    pub closed spec fn config(self) -> PredictionConfig {
        self.prediction_config
    }

    /// A handler with word, sentence and context prediction on.
    pub fn new() -> (h: Self)
        ensures
            h.config() == (PredictionConfig {
                enable_word_prediction: true,
                enable_sentence_prediction: true,
                enable_context_awareness: true,
            }),
    {
        PredictionHandler {
            prediction_config: PredictionConfig {
                enable_word_prediction: true,
                enable_sentence_prediction: true,
                enable_context_awareness: true,
            },
        }
    }
}

impl InputHandler for PredictionHandler {
    fn process_input(&self, input: &str) -> (r: String)
        ensures
            r@ == input@,
    {
        input.to_string()
    }
}

/// An input method turned on for a session.
#[derive(Debug, Clone, Copy)]
pub struct ActiveInputMethod {
    /// Identifier
    pub id: uuid::Uuid,
    /// Which input method
    pub method_type: InputMethodType,
    /// The session
    pub session_id: uuid::Uuid,
    /// Its state
    pub status: InputMethodStatus,
    /// When it was turned on, in milliseconds since the Unix epoch
    pub created_at: i64,
    /// When it was last used
    pub last_used: i64,
}

/// Input that was entered.
#[derive(Debug)]
pub struct InputHistoryEntry {
    /// Identifier
    pub id: uuid::Uuid,
    /// The text entered
    pub input: String,
    /// The input method it came through
    pub method_type: InputMethodType,
    /// When, in milliseconds since the Unix epoch
    pub created_at: i64,
}

/// `a` and `b` are the same history entry, the text compared by content.
pub open spec fn same_input(a: InputHistoryEntry, b: InputHistoryEntry) -> bool {
    a.id == b.id && a.input@ == b.input@ && a.method_type == b.method_type && a.created_at == b.created_at
}

impl Clone for InputHistoryEntry {
    /// A copy of the entry.
    fn clone(&self) -> (c: Self)
        ensures
            same_input(c, *self),
    {
        InputHistoryEntry {
            id: self.id,
            input: self.input.clone(),
            method_type: self.method_type,
            created_at: self.created_at,
        }
    }
}

/// `a` and `b` are the same input method record.
pub open spec fn same_method(a: ActiveInputMethod, b: ActiveInputMethod) -> bool {
    a == b
}

/// Why an input method operation failed.
#[derive(Debug, Clone, Copy, PartialEq, Eq, Structural)]
pub enum InputMethodError {
    /// No input method has the identifier
    NotFound,
    /// No handler is registered for the input method's kind
    NoHandler,
}

/// The index of the first input method of `ms` with identifier `id`.
pub open spec fn method_index(ms: Seq<ActiveInputMethod>, id: uuid::Uuid) -> Option<int> {
    if exists|i: int| 0 <= i < ms.len() && ms[i].id == id {
        Some(choose|i: int| 0 <= i < ms.len() && ms[i].id == id && forall|j: int| 0 <= j < i ==> ms[j].id != id)
    } else {
        None
    }
}

/// `new` is input history `old` after entering `text` through `method`
/// with at most `max` entries kept: the entry at the end, the oldest one
/// dropped when the history would otherwise hold more than `max`.
pub open spec fn history_after_input(
    old: Seq<InputHistoryEntry>,
    new: Seq<InputHistoryEntry>,
    text: Seq<char>,
    method: InputMethodType,
    max: usize,
) -> bool {
    let n = old.len() + 1;
    let shift: int = if n > max { 1 } else { 0 };
    &&& new.len() == n - shift
    &&& forall|i: int| 0 <= i < new.len() && i + shift < old.len() ==> #[trigger] new[i] == old[i + shift]
    &&& forall|i: int|
        0 <= i < new.len() && i + shift == old.len() ==> (#[trigger] new[i]).input@ == text
            && new[i].method_type == method
}

/// Turns input methods on and off, passes input through their handlers and
/// keeps a bounded history of what was entered.
pub struct InputMethodManager {
    active_input_methods: Vec<ActiveInputMethod>,
    input_history: Vec<InputHistoryEntry>,
    handlers_registered: bool,
    input_config: InputConfig,
}

impl InputMethodManager {
    /// The input methods, in the order they were turned on.
    pub closed spec fn methods(self) -> Seq<ActiveInputMethod> {
        self.active_input_methods@
    }

    /// The input entered, oldest first.
    pub closed spec fn history(self) -> Seq<InputHistoryEntry> {
        self.input_history@
    }

    /// Whether the handlers of the four input methods are registered.
    pub closed spec fn registered(self) -> bool {
        self.handlers_registered
    }

    /// The input configuration.
    pub closed spec fn config(self) -> InputConfig {
        self.input_config
    }

    /// A manager with no input methods, history or handlers; all four
    /// methods enabled, at most 100 history entries, a 30 second timeout.
    pub fn new() -> (m: Self)
        ensures
            m.methods().len() == 0,
            m.history().len() == 0,
            !m.registered(),
            m.config() == (InputConfig {
                enable_ime: true,
                enable_voice: true,
                enable_handwriting: true,
                enable_prediction: true,
                max_input_history: 100,
                input_timeout: 30,
            }),
    {
        InputMethodManager {
            active_input_methods: Vec::new(),
            input_history: Vec::new(),
            handlers_registered: false,
            input_config: InputConfig {
                enable_ime: true,
                enable_voice: true,
                enable_handwriting: true,
                enable_prediction: true,
                max_input_history: 100,
                input_timeout: 30,
            },
        }
    }

    /// Registers the handlers of the four input methods.
    pub fn initialize(&mut self)
        ensures
            final(self).registered(),
            final(self).methods() == old(self).methods(),
            final(self).history() == old(self).history(),
            final(self).config() == old(self).config(),
    {
        self.handlers_registered = true;
    }

    /// Turns on input method `method_type` for session `session_id`: an
    /// active method, kept after the others. Returns its identifier.
    pub fn activate_input_method(&mut self, method_type: InputMethodType, session_id: uuid::Uuid) -> (id: uuid::Uuid)
        ensures
            final(self).methods().len() == old(self).methods().len() + 1,
            forall|i: int|
                0 <= i < old(self).methods().len()
                    ==> #[trigger] final(self).methods()[i] == old(self).methods()[i],
            final(self).methods().last().id == id,
            final(self).methods().last().method_type == method_type,
            final(self).methods().last().session_id == session_id,
            final(self).methods().last().status == InputMethodStatus::Active,
            final(self).methods().last().created_at == final(self).methods().last().last_used,
            final(self).history() == old(self).history(),
            final(self).registered() == old(self).registered(),
            final(self).config() == old(self).config(),
    {
        let id = new_uuid();
        let now = utc_now_millis();
        self.active_input_methods.push(
            ActiveInputMethod {
                id,
                method_type,
                session_id,
                status: InputMethodStatus::Active,
                created_at: now,
                last_used: now,
            },
        );
        id
    }

    /// The index of the input method with identifier `id`.
    fn find(&self, id: &uuid::Uuid) -> (r: Option<usize>)
        ensures
            match method_index(self.methods(), *id) {
                None => r is None,
                Some(k) => r matches Some(j) && j == k,
            },
            r matches Some(k) ==> k < self.methods().len(),
    {
        let mut k: usize = 0;
        while k < self.active_input_methods.len()
            invariant
                k <= self.active_input_methods.len(),
                forall|j: int| 0 <= j < k ==> (#[trigger] self.active_input_methods@[j]).id != *id,
            decreases self.active_input_methods.len() - k,
        {
            if same_uuid(&self.active_input_methods[k].id, id) {
                proof {
                    let ms = self.methods();
                    let c = choose|i: int| 0 <= i < ms.len() && ms[i].id == *id && forall|j: int|
                        0 <= j < i ==> ms[j].id != *id;
                    assert(ms[k as int].id == *id);
                    assert(c == k);
                }
                return Some(k);
            }
            k = k + 1;
        }
        None
    }

    /// Keeps `input` at the end of the history, dropping the oldest entry
    /// when the history then holds more than `max_input_history`.
    fn add_to_input_history(&mut self, input: &str, method_type: InputMethodType)
        ensures
            final(self).methods() == old(self).methods(),
            final(self).registered() == old(self).registered(),
            final(self).config() == old(self).config(),
            history_after_input(old(self).history(), final(self).history(), input@, method_type, old(self).config().max_input_history),
    {
        let entry = InputHistoryEntry {
            id: new_uuid(),
            input: input.to_string(),
            method_type,
            created_at: utc_now_millis(),
        };
        self.input_history.push(entry);
        if self.input_history.len() > self.input_config.max_input_history {
            self.input_history.remove(0);
        }
    }

    /// Passes `input_data` through the handler of input method
    /// `input_method_id`: the text it gives (the input itself, with the
    /// handlers as they are) joins the history, the method is marked used,
    /// and the text is returned. Fails when no method has the identifier,
    /// or its handler is not registered.
    pub fn process_input(&mut self, input_method_id: uuid::Uuid, input_data: &str) -> (r: Result<String, InputMethodError>)
        ensures
            final(self).registered() == old(self).registered(),
            final(self).config() == old(self).config(),
            final(self).methods().len() == old(self).methods().len(),
            match method_index(old(self).methods(), input_method_id) {
                None => r == Err::<String, InputMethodError>(InputMethodError::NotFound)
                    && final(self).methods() == old(self).methods() && final(self).history()
                    == old(self).history(),
                Some(k) => if !old(self).registered() {
                    r == Err::<String, InputMethodError>(InputMethodError::NoHandler)
                        && final(self).methods() == old(self).methods() && final(self).history()
                        == old(self).history()
                } else {
                    let m = old(self).methods()[k];
                    let n = final(self).methods()[k];
                    &&& r matches Ok(text) && text@ == input_data@
                    &&& history_after_input(old(self).history(), final(self).history(), input_data@, m.method_type, old(self).config().max_input_history)
                    &&& forall|i: int|
                        0 <= i < old(self).methods().len() && i != k
                            ==> #[trigger] final(self).methods()[i] == old(self).methods()[i]
                    &&& n.id == m.id && n.method_type == m.method_type && n.session_id == m.session_id
                    &&& n.status == m.status && n.created_at == m.created_at
                },
            },
    {
        let k = match self.find(&input_method_id) {
            None => {
                return Err(InputMethodError::NotFound);
            },
            Some(k) => k,
        };
        if !self.handlers_registered {
            return Err(InputMethodError::NoHandler);
        }
        let method = self.active_input_methods[k];
        let processed = match method.method_type {
            InputMethodType::IME => IMEHandler::new().process_input(input_data),
            InputMethodType::Voice => VoiceHandler::new().process_input(input_data),
            InputMethodType::Handwriting => HandwritingHandler::new().process_input(input_data),
            InputMethodType::Prediction => PredictionHandler::new().process_input(input_data),
        };
        self.add_to_input_history(processed.as_str(), method.method_type);
        let mut used = method;
        used.last_used = utc_now_millis();
        self.active_input_methods.set(k, used);
        Ok(processed)
    }

    /// Turns input method `input_method_id` off; it is kept, as inactive.
    /// Fails when no method has the identifier.
    pub fn deactivate_input_method(&mut self, input_method_id: uuid::Uuid) -> (r: Result<(), InputMethodError>)
        ensures
            final(self).history() == old(self).history(),
            final(self).registered() == old(self).registered(),
            final(self).config() == old(self).config(),
            match method_index(old(self).methods(), input_method_id) {
                None => r == Err::<(), InputMethodError>(InputMethodError::NotFound)
                    && final(self).methods() == old(self).methods(),
                Some(k) => r is Ok && final(self).methods() == old(self).methods().update(
                    k,
                    ActiveInputMethod { status: InputMethodStatus::Inactive, ..old(self).methods()[k] },
                ),
            },
    {
        match self.find(&input_method_id) {
            None => Err(InputMethodError::NotFound),
            Some(k) => {
                let mut m = self.active_input_methods[k];
                m.status = InputMethodStatus::Inactive;
                self.active_input_methods.set(k, m);
                Ok(())
            },
        }
    }

    /// Input method `input_method_id`, if there is one.
    pub fn get_input_method(&self, input_method_id: uuid::Uuid) -> (r: Option<ActiveInputMethod>)
        ensures
            match method_index(self.methods(), input_method_id) {
                None => r is None,
                Some(k) => r == Some(self.methods()[k]),
            },
    {
        match self.find(&input_method_id) {
            None => None,
            Some(k) => Some(self.active_input_methods[k]),
        }
    }

    /// The times the input methods were turned on, in that order.
    pub open spec fn method_times(self) -> Seq<i64> {
        self.methods().map_values(|e: ActiveInputMethod| e.created_at)
    }

    /// The input methods, from the earliest turned on to the latest, those
    /// turned on at the same time in the order they were turned on.
    pub fn get_all_input_methods(&self) -> (r: Vec<ActiveInputMethod>)
        ensures
            r.len() == self.methods().len(),
            exists|idx: Seq<usize>|
                #[trigger] by_time(self.method_times(), idx) && forall|a: int|
                    0 <= a < r.len() ==> same_method(#[trigger] r@[a], self.methods()[idx[a] as int]),
    {
        let ghost keys_view = self.method_times();
        let mut keys: Vec<i64> = Vec::new();
        let mut k: usize = 0;
        while k < self.active_input_methods.len()
            invariant
                k <= self.active_input_methods.len(),
                keys_view == self.method_times(),
                keys@ == keys_view.take(k as int),
            decreases self.active_input_methods.len() - k,
        {
            keys.push(self.active_input_methods[k].created_at);
            k = k + 1;
            assert(keys@ =~= keys_view.take(k as int));
        }
        assert(keys_view.take(k as int) =~= keys_view);
        let order = time_order(&keys);
        let mut r: Vec<ActiveInputMethod> = Vec::new();
        let mut a: usize = 0;
        while a < order.len()
            invariant
                a <= order.len(),
                by_time(keys@, order@),
                keys@ == self.method_times(),
                r.len() == a,
                forall|b: int| 0 <= b < a ==> same_method(#[trigger] r@[b], self.methods()[order@[b] as int]),
            decreases order.len() - a,
        {
            r.push(self.active_input_methods[order[a]]);
            a = a + 1;
        }
        r
    }

    /// The times of the input entered, oldest entry first.
    pub open spec fn history_times(self) -> Seq<i64> {
        self.history().map_values(|e: InputHistoryEntry| e.created_at)
    }

    /// Copies of the input entered, from the earliest to the latest, input
    /// entered at the same time in the order it was entered.
    pub fn get_input_history(&self) -> (r: Vec<InputHistoryEntry>)
        ensures
            r.len() == self.history().len(),
            exists|idx: Seq<usize>|
                #[trigger] by_time(self.history_times(), idx) && forall|a: int|
                    0 <= a < r.len() ==> same_input(#[trigger] r@[a], self.history()[idx[a] as int]),
    {
        let ghost keys_view = self.history_times();
        let mut keys: Vec<i64> = Vec::new();
        let mut k: usize = 0;
        while k < self.input_history.len()
            invariant
                k <= self.input_history.len(),
                keys_view == self.history_times(),
                keys@ == keys_view.take(k as int),
            decreases self.input_history.len() - k,
        {
            keys.push(self.input_history[k].created_at);
            k = k + 1;
            assert(keys@ =~= keys_view.take(k as int));
        }
        assert(keys_view.take(k as int) =~= keys_view);
        let order = time_order(&keys);
        let mut r: Vec<InputHistoryEntry> = Vec::new();
        let mut a: usize = 0;
        while a < order.len()
            invariant
                a <= order.len(),
                by_time(keys@, order@),
                keys@ == self.history_times(),
                r.len() == a,
                forall|b: int| 0 <= b < a ==> same_input(#[trigger] r@[b], self.history()[order@[b] as int]),
            decreases order.len() - a,
        {
            r.push(self.input_history[order[a]].clone());
            a = a + 1;
        }
        r
    }

    /// How many input methods there are.
    pub fn get_method_count(&self) -> (n: usize)
        ensures
            n == self.methods().len(),
    {
        self.active_input_methods.len()
    }

    /// Forgets every entry of the input history.
    pub fn clear_input_history(&mut self)
        ensures
            final(self).history().len() == 0,
            final(self).methods() == old(self).methods(),
            final(self).registered() == old(self).registered(),
            final(self).config() == old(self).config(),
    {
        self.input_history = Vec::new();
    }

    /// Forgets every input method, history entry and handler.
    pub fn shutdown(&mut self)
        ensures
            final(self).methods().len() == 0,
            final(self).history().len() == 0,
            !final(self).registered(),
            final(self).config() == old(self).config(),
    {
        self.active_input_methods = Vec::new();
        self.clear_input_history();
        self.handlers_registered = false;
    }
}

/// Entering input never makes the input history hold more than its maximum
/// when it held no more before.
pub proof fn lemma_input_history_stays_bounded(
    old: Seq<InputHistoryEntry>,
    new: Seq<InputHistoryEntry>,
    text: Seq<char>,
    method: InputMethodType,
    max: usize,
)
    requires
        history_after_input(old, new, text, method, max),
        old.len() <= max,
    ensures
        new.len() <= max,
{
}

} // verus!

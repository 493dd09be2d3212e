# avspeechsynthesizer

Bindings for Apple's `AVSpeechSynthesizer` text-to-speech APIs on macOS.

- `src/` is the verified core, checked with Verus: markers, the requests
  that ask the platform to build them, and text ranges,
  voice quality/gender/trait values and voice metadata, Personal Voice
  authorization values, error mapping of bridge status codes and replies,
  decoding of delegate and stream events, decoding of base64 audio planes,
  attributed-text runs, and the order in which an offline write hands
  buffers and marker batches to its callbacks.
- `app/` holds what runs against the platform: the Swift bridge
  declarations, the synthesizer, provider and MIDI handles, the utterance
  type (whose speech settings are floating-point), the marker constructors
  (the platform framework builds each marker), JSON (de)serialization of
  the bridge payloads, and the async event stream.
- `tests/` exercises the verified core.

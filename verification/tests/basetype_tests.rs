use bitsong::basetype::{EnvelopeStage, Midi};

#[test]
fn midi_clone_keeps_fields() {
    let m = Midi { note: 60, typ: -1 };
    let c = m.clone();
    assert_eq!(c.note, 60);
    assert_eq!(c.typ, -1);
}

#[test]
fn envelope_stages_compare() {
    assert_eq!(EnvelopeStage::Off, EnvelopeStage::Off);
    assert_ne!(EnvelopeStage::Attack, EnvelopeStage::Release);
    let s = EnvelopeStage::Sustain;
    let t = s;
    assert_eq!(s, t);
}

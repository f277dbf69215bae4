//! Tests for the proxy, the key-value store model, and the typed
//! accessor wrappers, including the default-on-absence policy.

use wasmlib::coreaccounts::ImmutableBalanceParams;
use wasmlib::coreaccounts::MutableBalanceParams;
use wasmlib::coreaccounts::MutableFoundryModifySupplyParams;
use wasmlib::proxy::KvStore;
use wasmlib::proxy::Proxy;
use wasmlib::scbool::ScMutableBool;
use wasmlib::scbytes::ScMutableBytes;
use wasmlib::scuint16::uint16_decode;
use wasmlib::scuint16::uint16_encode;
use wasmlib::scuint16::uint16_from_bytes;
use wasmlib::scuint16::uint16_to_bytes;
use wasmlib::scuint16::uint16_to_string;
use wasmlib::scuint16::ScImmutableUint16;
use wasmlib::scuint16::ScMutableUint16;
use wasmlib::scuint32::ScMutableUint32;
use wasmlib::scuint64::ScMutableUint64;
use wasmlib::state::MutableexecutiontimeState;
use wasmlib::codec::WasmDecoder;
use wasmlib::codec::WasmEncoder;

#[test]
fn uint16_bytes_round_trip() {
    assert_eq!(uint16_to_bytes(0x1234), vec![0x34, 0x12]);
    assert_eq!(uint16_from_bytes(&[0x34, 0x12]), 0x1234);
    assert_eq!(uint16_from_bytes(&[]), 0);
    for v in [0u16, 1, 255, 256, 0x7fff, 0xffff] {
        assert_eq!(uint16_from_bytes(&uint16_to_bytes(v)), v);
    }
}

#[test]
fn uint16_wire_round_trip() {
    for v in [0u16, 1, 127, 128, 16383, 16384, 0xffff] {
        let mut enc = WasmEncoder::new();
        uint16_encode(&mut enc, v);
        let buf = enc.buf();
        let mut dec = WasmDecoder::new(&buf);
        assert_eq!(uint16_decode(&mut dec), Ok(v));
        assert_eq!(dec.finish(), Ok(()));
    }
}

#[test]
fn uint16_decode_truncates_to_16_bits() {
    // a three-byte VLU within the 16-bit ceiling can carry bits above
    // the 16th; the decoded value keeps the low 16 bits only
    let mut dec = WasmDecoder::new(&[0x80, 0x80, 0x07]);
    assert_eq!(uint16_decode(&mut dec), Ok(0xc000));
    assert_eq!(dec.finish(), Ok(()));
}

#[test]
fn uint16_length_constant() {
    assert_eq!(wasmlib::scuint16::SC_UINT16_LENGTH, 2);
    assert_eq!(uint16_to_bytes(0).len(), wasmlib::scuint16::SC_UINT16_LENGTH);
}

#[test]
fn uint16_text() {
    assert_eq!(uint16_to_string(0), "0");
    assert_eq!(uint16_to_string(42), "42");
    assert_eq!(uint16_to_string(65535), "65535");
}

#[test]
fn default_on_absence_uint16() {
    let mut store = KvStore::new();
    let field = ScMutableUint16::new(Proxy::new().root("counter"));
    assert!(!field.has_value(&store));
    assert_eq!(field.value(&store), 0);

    field.set_value(&mut store, 12345);
    assert!(field.has_value(&store));
    assert_eq!(field.value(&store), 12345);
    assert_eq!(field.to_string(&store), "12345");

    field.delete(&mut store);
    assert!(!field.has_value(&store));
    assert_eq!(field.value(&store), 0);
}

#[test]
fn immutable_view_reads_what_mutable_wrote() {
    let mut store = KvStore::new();
    let field = ScMutableUint16::new(Proxy::new().root("limit"));
    field.set_value(&mut store, 7);

    let view = field.as_immutable();
    assert!(view.has_value(&store));
    assert_eq!(view.value(&store), 7);

    let rederived = ScImmutableUint16::new(Proxy::new().root("limit"));
    assert_eq!(rederived.value(&store), 7);
}

#[test]
fn default_on_absence_bool() {
    let mut store = KvStore::new();
    let field = ScMutableBool::new(Proxy::new().root("flag"));
    assert!(!field.has_value(&store));
    assert!(!field.value(&store));
    assert_eq!(field.to_string(&store), "0");

    field.set_value(&mut store, true);
    assert!(field.has_value(&store));
    assert!(field.value(&store));
    assert_eq!(field.to_string(&store), "1");

    field.set_value(&mut store, false);
    assert!(field.has_value(&store));
    assert!(!field.value(&store));

    field.delete(&mut store);
    assert!(!field.has_value(&store));
    assert!(!field.value(&store));
}

#[test]
fn default_on_absence_bytes() {
    let mut store = KvStore::new();
    let field = ScMutableBytes::new(Proxy::new().root("blob"));
    assert!(!field.has_value(&store));
    assert_eq!(field.value(&store), Vec::<u8>::new());

    field.set_value(&mut store, &[0xde, 0xad]);
    assert!(field.has_value(&store));
    assert_eq!(field.value(&store), vec![0xde, 0xad]);
    assert_eq!(field.to_string(&store), "dead");

    field.delete(&mut store);
    assert!(!field.has_value(&store));
    assert_eq!(field.value(&store), Vec::<u8>::new());
}

#[test]
fn default_on_absence_uint32_and_uint64() {
    let mut store = KvStore::new();
    let f32 = ScMutableUint32::new(Proxy::new().root("sn"));
    let f64 = ScMutableUint64::new(Proxy::new().root("amount"));
    assert_eq!(f32.value(&store), 0);
    assert_eq!(f64.value(&store), 0);

    f32.set_value(&mut store, 0xdead_beef);
    f64.set_value(&mut store, 0x0123_4567_89ab_cdef);
    assert_eq!(f32.value(&store), 0xdead_beef);
    assert_eq!(f64.value(&store), 0x0123_4567_89ab_cdef);
    assert_eq!(f64.to_string(&store), "81985529216486895");

    f32.delete(&mut store);
    assert_eq!(f32.value(&store), 0);
    assert_eq!(f64.value(&store), 0x0123_4567_89ab_cdef);
}

#[test]
fn distinct_keys_are_independent() {
    let mut store = KvStore::new();
    let a = ScMutableUint16::new(Proxy::new().root("a"));
    let b = ScMutableUint16::new(Proxy::new().root("b"));
    a.set_value(&mut store, 1);
    b.set_value(&mut store, 2);
    assert_eq!(a.value(&store), 1);
    assert_eq!(b.value(&store), 2);
    a.delete(&mut store);
    assert_eq!(a.value(&store), 0);
    assert_eq!(b.value(&store), 2);
}

#[test]
fn set_value_overwrites_fully() {
    let mut store = KvStore::new();
    let field = ScMutableBytes::new(Proxy::new().root("payload"));
    field.set_value(&mut store, &[1, 2, 3, 4, 5]);
    field.set_value(&mut store, &[9]);
    assert_eq!(field.value(&store), vec![9]);
}

#[test]
fn child_proxies_nest() {
    let mut store = KvStore::new();
    let parent = Proxy::new().root("params");
    let child = ScMutableUint16::new(parent.root("size"));
    child.set_value(&mut store, 3);

    let again = ScMutableUint16::new(Proxy::new().root("params").root("size"));
    assert_eq!(again.value(&store), 3);

    let other = ScMutableUint16::new(Proxy::new().root("size"));
    assert!(!other.has_value(&store));
}

#[test]
fn params_accessors_share_storage() {
    let mut store = KvStore::new();
    let proxy = Proxy::new().root("balanceParams");
    let mutable = MutableBalanceParams::new(proxy.clone());
    let immutable = ImmutableBalanceParams::new(proxy);

    assert!(!immutable.agent_id().has_value(&store));
    mutable.agent_id().set_value(&mut store, &[0x11, 0x22]);
    assert!(immutable.agent_id().has_value(&store));
    assert_eq!(immutable.agent_id().value(&store), vec![0x11, 0x22]);
}

#[test]
fn modify_supply_params_fields() {
    let mut store = KvStore::new();
    let params = MutableFoundryModifySupplyParams::new(Proxy::new().root("p"));
    params.destroy_tokens().set_value(&mut store, true);
    params.foundry_sn().set_value(&mut store, 5);
    params.supply_delta_abs().set_value(&mut store, &[0x01, 0x00]);

    assert!(params.destroy_tokens().value(&store));
    assert_eq!(params.foundry_sn().value(&store), 5);
    assert_eq!(params.supply_delta_abs().value(&store), vec![0x01, 0x00]);
}

#[test]
fn state_owner_round_trip() {
    let mut store = KvStore::new();
    let state = MutableexecutiontimeState::new(Proxy::new());
    assert!(!state.owner().has_value(&store));

    state.owner().set_value(&mut store, &[0xaa, 0xbb, 0xcc]);
    assert!(state.owner().has_value(&store));

    let view = state.as_immutable();
    assert_eq!(view.owner().value(&store), vec![0xaa, 0xbb, 0xcc]);
    assert_eq!(view.owner().to_string(&store), "aabbcc");
}

//! The wire codec, through JSON text and back.

use resonite_link::codec::Wire;
use resonite_link::data_model::floats::FloatPrim;
use resonite_link::data_model::{
    ArrayField, Color, Color32, ColorX, Component, Empty, Enum, Field, Float2, Float3, Float4,
    FloatQ, Int2, Int3, Int4, Member, Reference, Slot, SyncList, SyncObject, F32, F64, ID,
};
use resonite_link::json::{DecodeError, Json, Number};
use resonite_link::messages::{Message, MessageWrapper};
use resonite_link::responses::{Response, ResponseKind};
use serde_json::Value;
use std::fmt::Debug;

fn single(x: f32) -> F32 {
    F32::from_bits(x.to_bits())
}

fn double(x: f64) -> F64 {
    F64::from_bits(x.to_bits())
}

/// The JSON value of a document, the way the text layer writes it.
fn to_value(doc: &Json) -> Value {
    match doc {
        Json::Null => Value::Null,
        Json::Bool(b) => Value::Bool(*b),
        Json::Number(n) => {
            if let Some(u) = n.unsigned {
                Value::from(u)
            } else if let Some(i) = n.signed {
                Value::from(i)
            } else if let Some(d) = n.double {
                Value::from(f64::from_bits(d.bits))
            } else if let Some(s) = n.single {
                Value::from(f32::from_bits(s.bits) as f64)
            } else {
                Value::Null
            }
        }
        Json::String(s) => Value::String(s.clone()),
        Json::Array(items) => Value::Array(items.iter().map(to_value).collect()),
        Json::Object(entries) => {
            Value::Object(entries.iter().map(|(k, v)| (k.clone(), to_value(v))).collect())
        }
    }
}

/// The document of a JSON value, the way the text layer reads it.
fn from_value(value: &Value) -> Json {
    match value {
        Value::Null => Json::Null,
        Value::Bool(b) => Json::Bool(*b),
        Value::Number(n) => {
            let wide = n.as_f64();
            Json::Number(Number {
                unsigned: n.as_u64(),
                signed: n.as_i64(),
                double: wide.map(double),
                single: wide.map(|x| single(x as f32)),
            })
        }
        Value::String(s) => Json::String(s.clone()),
        Value::Array(items) => Json::Array(items.iter().map(from_value).collect()),
        Value::Object(entries) => {
            Json::Object(entries.iter().map(|(k, v)| (k.clone(), from_value(v))).collect())
        }
    }
}

fn json(text: &str) -> Value {
    serde_json::from_str(text).unwrap()
}

fn decode<T: Wire>(text: &str) -> Result<T, DecodeError> {
    T::decode(&from_value(&json(text)))
}

fn assert_bi_eq_json<T: Wire + PartialEq + Debug>(value: T, expected: Value) {
    assert_eq!(to_value(&value.encode()), expected);
    assert_eq!(T::decode(&from_value(&expected)).unwrap(), value);
}

#[test]
fn number_value() {
    assert_bi_eq_json(Field::new("Taco", 2i32), json(r#"{"id": "Taco", "value": 2}"#));
}

#[test]
fn bool_value() {
    assert_bi_eq_json(Field::new("Taco", true), json(r#"{"id": "Taco", "value": true}"#));
}

#[test]
fn null_value() {
    assert_bi_eq_json(
        Field::<Option<i32>>::new("Taco", None),
        json(r#"{"id": "Taco", "value": null}"#),
    );
}

#[test]
fn null_but_not_value() {
    assert_bi_eq_json(
        Field::<Option<i32>>::new("Taco", Some(4)),
        json(r#"{"id": "Taco", "value": 4}"#),
    );
}

#[test]
fn pos_value() {
    let mut value = serde_json::Map::new();
    value.insert("x".into(), Value::from(0f32));
    value.insert("y".into(), Value::from(0f32));
    value.insert("z".into(), Value::from(0f32));
    let mut expected = serde_json::Map::new();
    expected.insert("id".into(), Value::from("Taco"));
    expected.insert("value".into(), Value::Object(value));
    assert_bi_eq_json(Field::new("Taco", Float3::default()), Value::Object(expected));
}

#[test]
fn float_num() {
    assert_bi_eq_json(single(1f32), json("1.0"));
}

#[test]
fn nan() {
    assert_eq!(to_value(&single(f32::NAN).encode()), json(r#""NaN""#));
    assert!(decode::<F32>(r#""NaN""#).unwrap().is_val_nan());
    assert!(f32::from_bits(decode::<F32>(r#""NaN""#).unwrap().to_bits()).is_nan());
}

#[test]
fn inf() {
    assert_bi_eq_json(single(f32::INFINITY), json(r#""Infinity""#));
}

#[test]
fn neg_inf() {
    assert_bi_eq_json(single(f32::NEG_INFINITY), json(r#""-Infinity""#));
}

#[test]
fn member_reference() {
    assert_bi_eq_json(
        Member::Reference(Reference::new("Taco", "Target", "Type")),
        json(r#"{"$type": "reference", "id": "Taco", "targetId": "Target", "targetType": "Type"}"#),
    );
}

#[test]
fn member_byte() {
    assert_bi_eq_json(
        Member::Byte(Field::new("Taco", 2)),
        json(r#"{"$type": "byte", "id": "Taco", "value": 2}"#),
    );
}

#[test]
fn member_nullable_float() {
    assert_bi_eq_json(
        Member::NullFloat(Field::new("Taco", Some(single(3f32)))),
        json(r#"{"$type": "float?", "id": "Taco", "value": 3.0}"#),
    );
}

#[test]
fn member_nullable_float_null() {
    assert_bi_eq_json(
        Member::NullFloat(Field::new("Taco", None)),
        json(r#"{"$type": "float?", "id": "Taco", "value": null}"#),
    );
}

#[test]
fn member_float3() {
    assert_bi_eq_json(
        Member::Float3(Field::new("Taco", Float3::default())),
        json(r#"{"$type": "float3", "id": "Taco", "value": {"x": 0.0, "y": 0.0, "z": 0.0}}"#),
    );
}

#[test]
fn serializer() {
    assert_bi_eq_json(
        Reference::new("Taco", "Target", "Type"),
        json(r#"{"id": "Taco", "targetId": "Target", "targetType": "Type"}"#),
    );
}

#[test]
fn sync_list_serialize() {
    assert_bi_eq_json(
        SyncList { id: "Taco".into(), elements: vec![Member::Bool(Field::new("Potato", false))] },
        json(r#"{"id": "Taco", "elements": [{"$type": "bool", "id": "Potato", "value": false}]}"#),
    );
}

#[test]
fn sync_object_serialize() {
    assert_bi_eq_json(
        SyncObject {
            id: "Taco".into(),
            members: vec![("Field1".into(), Member::Bool(Field::new("Potato", false)))],
        },
        json(
            r#"{"id": "Taco", "members": {"Field1": {"$type": "bool", "id": "Potato", "value": false}}}"#,
        ),
    );
}

#[test]
fn serialize_get_slot() {
    assert_bi_eq_json(
        MessageWrapper { message_id: "Magic!".into(), inner: Message::new_get_slot("1", -1, false) },
        json(
            r#"{"$type": "getSlot", "messageId": "Magic!", "slotId": "1", "depth": -1, "includeComponentData": false}"#,
        ),
    );
}

fn stub_child(id: &str, name: &str) -> String {
    format!(
        r#"{{
            "parent": {{"targetId": "Root", "targetType": "FrooxEngine.Slot", "id": "{id}_p"}},
            "position": {{"value": {{"x": 0, "y": 0.01, "z": 0}}, "id": "{id}_1"}},
            "rotation": {{"value": {{"x": 0.9914449, "y": -3.7631953e-8, "z": -3.7631953e-8, "w": 0.1305262}}, "id": "{id}_2"}},
            "scale": {{"value": {{"x": 1, "y": 1, "z": 1}}, "id": "{id}_3"}},
            "isActive": {{"value": true, "id": "{id}_4"}},
            "isPersistent": {{"value": false, "id": "{id}_5"}},
            "name": {{"value": "{name}", "id": "{id}_6"}},
            "tag": {{"value": null, "id": "{id}_7"}},
            "orderOffset": {{"value": 0, "id": "{id}_8"}},
            "components": null,
            "children": null,
            "id": "{id}",
            "isReferenceOnly": true
        }}"#
    )
}

fn root_reply() -> String {
    ROOT_REPLY.to_string()
}

/// The reply to a call for the root of a fresh world.
const ROOT_REPLY: &str = r#"{
  "$type": "slotData",
  "depth": 0,
  "data": {
    "parent": {
      "targetId": null,
      "targetType": "FrooxEngine.Slot",
      "id": "Reso_0"
    },
    "position": { "value": { "x": 0, "y": 0, "z": 0 }, "id": "Reso_1" },
    "rotation": { "value": { "x": 0, "y": 0, "z": 0, "w": 1 }, "id": "Reso_2" },
    "scale": { "value": { "x": 1, "y": 1, "z": 1 }, "id": "Reso_3" },
    "isActive": { "value": true, "id": "Reso_4" },
    "isPersistent": { "value": true, "id": "Reso_5" },
    "name": { "value": "Root", "id": "Reso_6" },
    "tag": { "value": null, "id": "Reso_7" },
    "orderOffset": { "value": 0, "id": "Reso_8" },
    "components": [
      {
        "componentType": "FrooxEngine.StaticLocaleProvider",
        "members": null,
        "id": "Reso_9",
        "isReferenceOnly": true
      },
      {
        "componentType": "FrooxEngine.AssetLoader<FrooxEngine.LocaleResource>",
        "members": null,
        "id": "Reso_A",
        "isReferenceOnly": true
      },
      {
        "componentType": "FrooxEngine.GradientStripTexture",
        "members": null,
        "id": "Reso_B",
        "isReferenceOnly": true
      },
      {
        "componentType": "FrooxEngine.DynamicVariableSpace",
        "members": null,
        "id": "Reso_C",
        "isReferenceOnly": true
      },
      {
        "componentType": "FrooxEngine.LocomotionAnimationConfiguration",
        "members": null,
        "id": "Reso_D",
        "isReferenceOnly": true
      },
      {
        "componentType": "FrooxEngine.FingerPosePreset",
        "members": null,
        "id": "Reso_E",
        "isReferenceOnly": true
      },
      {
        "componentType": "FrooxEngine.FingerPosePreset",
        "members": null,
        "id": "Reso_F",
        "isReferenceOnly": true
      },
      {
        "componentType": "FrooxEngine.FontChain",
        "members": null,
        "id": "Reso_10",
        "isReferenceOnly": true
      },
      {
        "componentType": "FrooxEngine.StaticFont",
        "members": null,
        "id": "Reso_11",
        "isReferenceOnly": true
      },
      {
        "componentType": "FrooxEngine.StaticFont",
        "members": null,
        "id": "Reso_12",
        "isReferenceOnly": true
      },
      {
        "componentType": "FrooxEngine.StaticFont",
        "members": null,
        "id": "Reso_13",
        "isReferenceOnly": true
      },
      {
        "componentType": "FrooxEngine.StaticFont",
        "members": null,
        "id": "Reso_14",
        "isReferenceOnly": true
      },
      {
        "componentType": "FrooxEngine.StaticFont",
        "members": null,
        "id": "Reso_15",
        "isReferenceOnly": true
      },
      {
        "componentType": "FrooxEngine.StaticFont",
        "members": null,
        "id": "Reso_16",
        "isReferenceOnly": true
      },
      {
        "componentType": "FrooxEngine.StaticFont",
        "members": null,
        "id": "Reso_17",
        "isReferenceOnly": true
      },
      {
        "componentType": "FrooxEngine.TextUnlitMaterial",
        "members": null,
        "id": "Reso_18",
        "isReferenceOnly": true
      },
      {
        "componentType": "FrooxEngine.DynamicValueVariable<string>",
        "members": null,
        "id": "Reso_19",
        "isReferenceOnly": true
      }
    ],
    "children": [
      {
        "parent": {
          "targetId": "Root",
          "targetType": "FrooxEngine.Slot",
          "id": "Reso_1B"
        },
        "position": { "value": { "x": 0, "y": 0, "z": 0 }, "id": "Reso_1C" },
        "rotation": {
          "value": { "x": 0, "y": 0, "z": 0, "w": 1 },
          "id": "Reso_1D"
        },
        "scale": { "value": { "x": 1, "y": 1, "z": 1 }, "id": "Reso_1E" },
        "isActive": { "value": true, "id": "Reso_1F" },
        "isPersistent": { "value": true, "id": "Reso_20" },
        "name": { "value": "Controllers", "id": "Reso_21" },
        "tag": { "value": null, "id": "Reso_22" },
        "orderOffset": { "value": 0, "id": "Reso_23" },
        "components": null,
        "children": null,
        "id": "Reso_1A",
        "isReferenceOnly": true
      },
      {
        "parent": {
          "targetId": "Root",
          "targetType": "FrooxEngine.Slot",
          "id": "Reso_25"
        },
        "position": { "value": { "x": 0, "y": 0, "z": 0 }, "id": "Reso_26" },
        "rotation": {
          "value": { "x": 0, "y": 0, "z": 0, "w": 1 },
          "id": "Reso_27"
        },
        "scale": { "value": { "x": 1, "y": 1, "z": 1 }, "id": "Reso_28" },
        "isActive": { "value": true, "id": "Reso_29" },
        "isPersistent": { "value": true, "id": "Reso_2A" },
        "name": { "value": "Roles", "id": "Reso_2B" },
        "tag": { "value": null, "id": "Reso_2C" },
        "orderOffset": { "value": 0, "id": "Reso_2D" },
        "components": null,
        "children": null,
        "id": "Reso_24",
        "isReferenceOnly": true
      },
      {
        "parent": {
          "targetId": "Root",
          "targetType": "FrooxEngine.Slot",
          "id": "Reso_2F"
        },
        "position": { "value": { "x": 0, "y": 0, "z": 0 }, "id": "Reso_30" },
        "rotation": {
          "value": { "x": 0, "y": 0, "z": 0, "w": 1 },
          "id": "Reso_31"
        },
        "scale": { "value": { "x": 1, "y": 1, "z": 1 }, "id": "Reso_32" },
        "isActive": { "value": true, "id": "Reso_33" },
        "isPersistent": { "value": true, "id": "Reso_34" },
        "name": { "value": "Clipboard Importer", "id": "Reso_35" },
        "tag": { "value": null, "id": "Reso_36" },
        "orderOffset": { "value": 0, "id": "Reso_37" },
        "components": null,
        "children": null,
        "id": "Reso_2E",
        "isReferenceOnly": true
      },
      {
        "parent": {
          "targetId": "Root",
          "targetType": "FrooxEngine.Slot",
          "id": "Reso_39"
        },
        "position": { "value": { "x": 0, "y": 0.01, "z": 0 }, "id": "Reso_3A" },
        "rotation": {
          "value": { "x": 0, "y": 0, "z": 0, "w": 1 },
          "id": "Reso_3B"
        },
        "scale": { "value": { "x": 1, "y": 1, "z": 1 }, "id": "Reso_3C" },
        "isActive": { "value": true, "id": "Reso_3D" },
        "isPersistent": { "value": true, "id": "Reso_3E" },
        "name": { "value": "SpawnArea", "id": "Reso_3F" },
        "tag": { "value": null, "id": "Reso_40" },
        "orderOffset": { "value": 0, "id": "Reso_41" },
        "components": null,
        "children": null,
        "id": "Reso_38",
        "isReferenceOnly": true
      },
      {
        "parent": {
          "targetId": "Root",
          "targetType": "FrooxEngine.Slot",
          "id": "Reso_43"
        },
        "position": { "value": { "x": 0, "y": 2, "z": 0 }, "id": "Reso_44" },
        "rotation": {
          "value": {
            "x": 0.9914449,
            "y": -3.7631953e-8,
            "z": -3.7631953e-8,
            "w": 0.1305262
          },
          "id": "Reso_45"
        },
        "scale": { "value": { "x": 1, "y": 1, "z": 1 }, "id": "Reso_46" },
        "isActive": { "value": true, "id": "Reso_47" },
        "isPersistent": { "value": true, "id": "Reso_48" },
        "name": { "value": "Light", "id": "Reso_49" },
        "tag": { "value": null, "id": "Reso_4A" },
        "orderOffset": { "value": 0, "id": "Reso_4B" },
        "components": null,
        "children": null,
        "id": "Reso_42",
        "isReferenceOnly": true
      },
      {
        "parent": {
          "targetId": "Root",
          "targetType": "FrooxEngine.Slot",
          "id": "Reso_4D"
        },
        "position": { "value": { "x": 0, "y": 0, "z": 0 }, "id": "Reso_4E" },
        "rotation": {
          "value": { "x": 0, "y": 0, "z": 0, "w": 1 },
          "id": "Reso_4F"
        },
        "scale": { "value": { "x": 1, "y": 1, "z": 1 }, "id": "Reso_50" },
        "isActive": { "value": true, "id": "Reso_51" },
        "isPersistent": { "value": true, "id": "Reso_52" },
        "name": { "value": "Skybox", "id": "Reso_53" },
        "tag": { "value": null, "id": "Reso_54" },
        "orderOffset": { "value": 0, "id": "Reso_55" },
        "components": null,
        "children": null,
        "id": "Reso_4C",
        "isReferenceOnly": true
      },
      {
        "parent": {
          "targetId": "Root",
          "targetType": "FrooxEngine.Slot",
          "id": "Reso_57"
        },
        "position": { "value": { "x": 0, "y": 0, "z": 0 }, "id": "Reso_58" },
        "rotation": {
          "value": { "x": 0, "y": 0, "z": 0, "w": 1 },
          "id": "Reso_59"
        },
        "scale": { "value": { "x": 1, "y": 1, "z": 1 }, "id": "Reso_5A" },
        "isActive": { "value": true, "id": "Reso_5B" },
        "isPersistent": { "value": true, "id": "Reso_5C" },
        "name": { "value": "Ground", "id": "Reso_5D" },
        "tag": { "value": null, "id": "Reso_5E" },
        "orderOffset": { "value": 0, "id": "Reso_5F" },
        "components": null,
        "children": null,
        "id": "Reso_56",
        "isReferenceOnly": true
      },
      {
        "parent": {
          "targetId": "Root",
          "targetType": "FrooxEngine.Slot",
          "id": "Reso_61"
        },
        "position": {
          "value": { "x": -4.6393156, "y": -0.0002755938, "z": 2.7489536 },
          "id": "Reso_62"
        },
        "rotation": {
          "value": { "x": 0, "y": -0.00049950357, "z": 0, "w": 0.9999999 },
          "id": "Reso_63"
        },
        "scale": { "value": { "x": 1, "y": 1, "z": 1 }, "id": "Reso_64" },
        "isActive": { "value": true, "id": "Reso_65" },
        "isPersistent": { "value": false, "id": "Reso_66" },
        "name": {
          "value": "User <noparse=9>Earthmark (ID2E00)",
          "id": "Reso_67"
        },
        "tag": { "value": null, "id": "Reso_68" },
        "orderOffset": { "value": 0, "id": "Reso_69" },
        "components": null,
        "children": null,
        "id": "Reso_60",
        "isReferenceOnly": true
      },
      {
        "parent": {
          "targetId": "Root",
          "targetType": "FrooxEngine.Slot",
          "id": "Reso_6B"
        },
        "position": { "value": { "x": 0, "y": 0, "z": 0 }, "id": "Reso_6C" },
        "rotation": {
          "value": { "x": 0, "y": 0, "z": 0, "w": 1 },
          "id": "Reso_6D"
        },
        "scale": { "value": { "x": 1, "y": 1, "z": 1 }, "id": "Reso_6E" },
        "isActive": { "value": true, "id": "Reso_6F" },
        "isPersistent": { "value": false, "id": "Reso_70" },
        "name": { "value": "__TEMP", "id": "Reso_71" },
        "tag": { "value": null, "id": "Reso_72" },
        "orderOffset": { "value": 0, "id": "Reso_73" },
        "components": null,
        "children": null,
        "id": "Reso_6A",
        "isReferenceOnly": true
      },
      {
        "parent": {
          "targetId": "Root",
          "targetType": "FrooxEngine.Slot",
          "id": "Reso_75"
        },
        "position": { "value": { "x": 0, "y": 0, "z": 0 }, "id": "Reso_76" },
        "rotation": {
          "value": { "x": 0, "y": 0, "z": 0, "w": 1 },
          "id": "Reso_77"
        },
        "scale": { "value": { "x": 1, "y": 1, "z": 1 }, "id": "Reso_78" },
        "isActive": { "value": true, "id": "Reso_79" },
        "isPersistent": { "value": false, "id": "Reso_7A" },
        "name": { "value": "Undo Manager", "id": "Reso_7B" },
        "tag": { "value": null, "id": "Reso_7C" },
        "orderOffset": { "value": 0, "id": "Reso_7D" },
        "components": null,
        "children": null,
        "id": "Reso_74",
        "isReferenceOnly": true
      },
      {
        "parent": {
          "targetId": "Root",
          "targetType": "FrooxEngine.Slot",
          "id": "Reso_7F"
        },
        "position": { "value": { "x": 0, "y": 0, "z": 0 }, "id": "Reso_80" },
        "rotation": {
          "value": { "x": 0, "y": 0, "z": 0, "w": 1 },
          "id": "Reso_81"
        },
        "scale": { "value": { "x": 1, "y": 1, "z": 1 }, "id": "Reso_82" },
        "isActive": { "value": true, "id": "Reso_83" },
        "isPersistent": { "value": true, "id": "Reso_84" },
        "name": { "value": "Assets", "id": "Reso_85" },
        "tag": { "value": null, "id": "Reso_86" },
        "orderOffset": { "value": 0, "id": "Reso_87" },
        "components": null,
        "children": null,
        "id": "Reso_7E",
        "isReferenceOnly": true
      }
    ],
    "id": "Root",
    "isReferenceOnly": false
  },
  "sourceMessageId": "RS_REPL_BEF43B49_0",
  "success": true,
  "errorInfo": null
}"#;

#[test]
fn test_response() {
    assert!(decode::<Response>(&root_reply()).is_ok());
}

#[test]
fn response_holds_what_the_text_says() {
    let response = decode::<Response>(&root_reply()).unwrap();
    assert_eq!(response.source_message_id.as_deref(), Some("RS_REPL_BEF43B49_0"));
    assert!(response.success);
    assert_eq!(response.error_info, None);
    let ResponseKind::SlotData { depth, data } = response.kind else {
        panic!("not a slot");
    };
    assert_eq!(depth, 0);
    let root = data.unwrap();
    assert_eq!(root.id(), "Root");
    assert!(root.is_root_slot());
    assert_eq!(root.parent.target_id, None);
    assert_eq!(root.scale.value, Float3 { x: single(1.0), y: single(1.0), z: single(1.0) });
    assert_eq!(root.components.len(), 17);
    assert_eq!(
        root.components[1].component_type,
        "FrooxEngine.AssetLoader<FrooxEngine.LocaleResource>"
    );
    assert!(root.components[0].members.is_empty());
    assert!(root.components.iter().all(|c| c.is_reference_only));
    assert_eq!(root.children.len(), 11);
    let light = &root.children[4];
    assert_eq!(light.name.value.as_deref(), Some("Light"));
    assert!(!light.is_root_slot());
    assert!(light.is_reference_only);
    assert_eq!(light.id(), "Reso_42");
    assert_eq!(light.position.value.y, single(2.0));
    assert_eq!(light.rotation.value.x, single(0.9914449));
    assert_eq!(light.rotation.value.y, single(-3.7631953e-8));
    assert_eq!(root.children[3].position.value.y, single(0.01));
    assert_eq!(
        root.children[7].name.value.as_deref(),
        Some("User <noparse=9>Earthmark (ID2E00)")
    );
    assert!(light.components.is_empty());
    assert!(light.children.is_empty());
}

#[test]
fn null_components_read_as_none() {
    let slot = decode::<Slot>(&stub_child("S", "N")).unwrap();
    assert_eq!(slot.components, Vec::<Component>::new());
    assert_eq!(slot.children, Vec::<Slot>::new());
    let list = decode::<SyncList>(r#"{"id": "L", "elements": null}"#).unwrap();
    assert!(list.elements.is_empty());
    let component = decode::<Component>(
        r#"{"id": "C", "isReferenceOnly": false, "componentType": "T", "members": null}"#,
    )
    .unwrap();
    assert!(component.members.is_empty());
}

#[test]
fn missing_containers_are_refused() {
    assert_eq!(decode::<SyncList>(r#"{"id": "L"}"#), Err(DecodeError::MissingField));
    assert_eq!(
        decode::<Component>(r#"{"id": "C", "isReferenceOnly": false, "componentType": "T"}"#),
        Err(DecodeError::MissingField)
    );
    assert_eq!(
        decode::<SyncObject>(r#"{"id": "O", "members": null}"#),
        Err(DecodeError::WrongType)
    );
}

#[test]
fn every_kind_of_member_comes_back() {
    let f3 = Float3 { x: single(1.5), y: single(-2.0), z: single(0.1) };
    let fq = FloatQ { x: single(0.0), y: single(0.0), z: single(0.0), w: single(1.0) };
    let cx = ColorX {
        r: single(0.25),
        g: single(0.5),
        b: single(0.75),
        a: single(1.0),
        profile: "sRGB".into(),
    };
    let members = vec![
        (Member::Reference(Reference::new("a", "b", "c")), "reference"),
        (Member::SyncList(SyncList { id: "l".into(), elements: vec![Member::Int(Field::new("i", -7))] }), "list"),
        (
            Member::SyncObject(SyncObject {
                id: "o".into(),
                members: vec![("k".into(), Member::Empty(Empty { id: "e".into() }))],
            }),
            "syncObject",
        ),
        (Member::String(Field::new("s", Some("text".into()))), "string"),
        (Member::Uri(Field::new("u", Some("resdb:///x".into()))), "Uri"),
        (Member::Enum(Field::new("e", None)), "enum"),
        (Member::Empty(Empty { id: "n".into() }), "empty"),
        (Member::Byte(Field::new("b", 255)), "byte"),
        (Member::UShort(Field::new("b", 65535)), "ushort"),
        (Member::UInt(Field::new("b", u32::MAX)), "uint"),
        (Member::ULong(Field::new("b", u64::MAX)), "ulong"),
        (Member::SByte(Field::new("b", -128)), "sbyte"),
        (Member::Short(Field::new("b", -32768)), "short"),
        (Member::Int(Field::new("b", i32::MIN)), "int"),
        (Member::NullInt(Field::new("b", Some(12))), "int?"),
        (Member::Long(Field::new("b", i64::MIN)), "long"),
        (Member::Int2(Field::new("v", Int2 { x: 1, y: -2 })), "int2"),
        (Member::NullInt2(Field::new("v", None)), "int2?"),
        (Member::Int3(Field::new("v", Int3 { x: 1, y: 2, z: 3 })), "int3"),
        (Member::Int4(Field::new("v", Int4 { x: 1, y: 2, z: 3, w: 4 })), "int4"),
        (Member::Float(Field::new("f", single(2.0))), "float"),
        (Member::NullFloat(Field::new("f", Some(single(f32::INFINITY)))), "float?"),
        (Member::Double(Field::new("f", double(0.1))), "double"),
        (Member::Bool(Field::new("t", true)), "bool"),
        (Member::NullBool(Field::new("t", Some(false))), "bool?"),
        (
            Member::Color(Field::new(
                "c",
                Color { r: single(1.0), g: single(0.0), b: single(0.5), a: single(1.0) },
            )),
            "color",
        ),
        (Member::ColorX(Field::new("c", cx.clone())), "colorX"),
        (Member::NullColorX(Field::new("c", Some(cx))), "colorX?"),
        (Member::Color32(Field::new("c", Color32 { r: 1, g: 2, b: 3, a: 255 })), "color32"),
        (Member::Float2(Field::new("v", Float2 { x: single(1.0), y: single(2.0) })), "float2"),
        (Member::Float3(Field::new("v", f3)), "float3"),
        (Member::NullFloat3(Field::new("v", Some(f3))), "float3?"),
        (Member::Float3Vec(ArrayField::new("v", vec![f3, Float3::default()])), "float3[]"),
        (
            Member::Float4(Field::new(
                "v",
                Float4 { x: single(1.0), y: single(2.0), z: single(3.0), w: single(4.0) },
            )),
            "float4",
        ),
        (Member::FloatQ(Field::new("v", fq)), "floatQ"),
        (Member::NullFloatQ(Field::new("v", None)), "floatQ?"),
        (Member::FloatQVec(ArrayField::new("v", vec![fq])), "floatQ[]"),
    ];
    assert_eq!(members.len(), 37);
    for (member, tag) in members {
        let value = to_value(&member.encode());
        assert_eq!(value["$type"], Value::from(tag));
        assert_eq!(value["id"], Value::from(member.id()));
        let text = serde_json::to_string(&value).unwrap();
        assert_eq!(decode::<Member>(&text).unwrap(), member, "{text}");
    }
}

#[test]
fn a_float_member_reads_a_whole_number() {
    assert_bi_eq_json(
        Member::Float(Field::new("Taco", single(2.0))),
        json(r#"{"$type": "float", "id": "Taco", "value": 2.0}"#),
    );
    assert_eq!(
        decode::<Member>(r#"{"$type": "float", "id": "Taco", "value": 2}"#).unwrap(),
        Member::Float(Field::new("Taco", single(2.0)))
    );
    assert_eq!(
        decode::<Member>(r#"{"$type": "double", "id": "Taco", "value": -3}"#).unwrap(),
        Member::Double(Field::new("Taco", double(-3.0)))
    );
}

#[test]
fn finite_singles_are_written_as_their_doubles() {
    assert_eq!(to_value(&single(0.1).encode()), Value::from(0.1f32 as f64));
    assert_eq!(to_value(&double(0.1).encode()), Value::from(0.1f64));
    assert_eq!(decode::<F32>("0.1").unwrap(), single(0.1));
    assert_eq!(decode::<F64>("0.1").unwrap(), double(0.1));
}

#[test]
fn special_floats_go_by_name() {
    assert_bi_eq_json(double(f64::INFINITY), json(r#""Infinity""#));
    assert_bi_eq_json(double(f64::NEG_INFINITY), json(r#""-Infinity""#));
    assert_bi_eq_json(double(f64::NAN), json(r#""NaN""#));
    assert_bi_eq_json(single(f32::NAN), json(r#""NaN""#));
    assert_eq!(to_value(&F32::from_bits(0xffc0_0001).encode()), json(r#""NaN""#));
    assert_eq!(decode::<F32>(r#""nan""#), Err(DecodeError::NotAFloat));
    assert_eq!(decode::<F64>(r#""+Infinity""#), Err(DecodeError::NotAFloat));
    assert_eq!(decode::<F32>("true"), Err(DecodeError::WrongType));
    assert_eq!(decode::<F32>("null"), Err(DecodeError::WrongType));
    let color = decode::<Color>(r#"{"r": "Infinity", "g": "-Infinity", "b": "NaN", "a": 1}"#).unwrap();
    assert_eq!(color.r, F32::inf());
    assert_eq!(color.g, F32::neg_inf());
    assert_eq!(color.b, F32::nan());
    assert_eq!(color.a, single(1.0));
    assert_eq!(
        to_value(&color.encode()),
        json(r#"{"r": "Infinity", "g": "-Infinity", "b": "NaN", "a": 1.0}"#)
    );
    assert_eq!(
        decode::<Color32>(r#"{"r": "NaN", "g": 0, "b": 0, "a": 0}"#),
        Err(DecodeError::WrongType)
    );
}

#[test]
fn a_number_without_the_width_is_no_float() {
    let whole = Json::Number(Number::from_unsigned(2));
    assert_eq!(F32::decode(&whole), Err(DecodeError::NotAFloat));
    let narrow = single(2.0).encode();
    assert_eq!(F64::decode(&narrow), Err(DecodeError::NotAFloat));
    assert_eq!(F32::decode(&narrow), Ok(single(2.0)));
}

#[test]
fn integers_are_held_to_their_range() {
    assert_eq!(decode::<u8>("255"), Ok(255));
    assert_eq!(decode::<u8>("256"), Err(DecodeError::OutOfRange));
    assert_eq!(decode::<u8>("-1"), Err(DecodeError::OutOfRange));
    assert_eq!(decode::<i8>("-128"), Ok(-128));
    assert_eq!(decode::<i8>("128"), Err(DecodeError::OutOfRange));
    assert_eq!(decode::<u16>("65536"), Err(DecodeError::OutOfRange));
    assert_eq!(decode::<i16>("-32769"), Err(DecodeError::OutOfRange));
    assert_eq!(decode::<u32>("4294967296"), Err(DecodeError::OutOfRange));
    assert_eq!(decode::<i32>("-2147483649"), Err(DecodeError::OutOfRange));
    assert_eq!(decode::<u64>("18446744073709551615"), Ok(u64::MAX));
    assert_eq!(decode::<i64>("18446744073709551615"), Err(DecodeError::OutOfRange));
    assert_eq!(decode::<i64>("-9223372036854775808"), Ok(i64::MIN));
    assert_eq!(decode::<u64>("-9223372036854775808"), Err(DecodeError::OutOfRange));
    assert_eq!(decode::<u8>("2.0"), Err(DecodeError::WrongType));
    assert_eq!(decode::<u8>(r#""2""#), Err(DecodeError::WrongType));
    assert_eq!(decode::<bool>("1"), Err(DecodeError::WrongType));
    assert_eq!(decode::<String>("1"), Err(DecodeError::WrongType));
    assert_eq!(to_value(&u64::MAX.encode()), json("18446744073709551615"));
    assert_eq!(to_value(&(-5i8).encode()), json("-5"));
}

#[test]
fn members_are_told_apart_by_their_type() {
    assert_eq!(decode::<Member>(r#"{"id": "x", "value": 1}"#), Err(DecodeError::MissingField));
    assert_eq!(
        decode::<Member>(r#"{"$type": "decimal", "id": "x", "value": 1}"#),
        Err(DecodeError::UnknownTag)
    );
    assert_eq!(
        decode::<Member>(r#"{"$type": 7, "id": "x", "value": 1}"#),
        Err(DecodeError::WrongType)
    );
    assert_eq!(decode::<Member>(r#"["byte", "x", 1]"#), Err(DecodeError::WrongType));
    assert_eq!(
        decode::<Member>(r#"{"$type": "byte", "id": "x", "value": true}"#),
        Err(DecodeError::WrongType)
    );
    assert_eq!(
        decode::<Member>(r#"{"$type": "byte", "id": "x"}"#),
        Err(DecodeError::MissingField)
    );
    assert_eq!(
        decode::<Member>(r#"{"$type": "int?", "id": "x"}"#).unwrap(),
        Member::NullInt(Field::new("x", None))
    );
    assert_eq!(
        decode::<Member>(r#"{"$type": "bool", "id": "x", "value": false, "more": [1, 2]}"#).unwrap(),
        Member::Bool(Field::new("x", false))
    );
    assert_eq!(
        decode::<Member>(r#"{"$type": "list", "id": "x", "elements": [{"$type": "bool", "id": "y", "value": 0}]}"#),
        Err(DecodeError::WrongType)
    );
}

#[test]
fn an_object_with_one_key_twice_is_no_map() {
    let member = |id: &str| {
        Json::Object(vec![
            ("$type".to_string(), Json::String("empty".to_string())),
            ("id".to_string(), Json::String(id.to_string())),
        ])
    };
    let twice = Json::Object(vec![
        ("id".to_string(), Json::String("o".to_string())),
        (
            "members".to_string(),
            Json::Object(vec![("a".to_string(), member("1")), ("a".to_string(), member("2"))]),
        ),
    ]);
    assert_eq!(SyncObject::decode(&twice), Err(DecodeError::DuplicateKey));
    let later = Json::Object(vec![
        ("id".to_string(), Json::String("first".to_string())),
        ("id".to_string(), Json::String("second".to_string())),
    ]);
    assert_eq!(Empty::decode(&later), Ok(Empty { id: "second".to_string() }));
}

#[test]
fn every_call_has_its_type() {
    let slot = decode::<Slot>(&stub_child("S", "N")).unwrap();
    let slot_value = to_value(&slot.encode());
    let component = Component {
        id: "C".into(),
        is_reference_only: false,
        component_type: "T".into(),
        members: vec![("m".into(), Member::Byte(Field::new("b", 1)))],
    };
    let component_value = to_value(&component.encode());
    let calls = vec![
        (Message::new_get_slot("ROOT", 1, false), r#"{"$type": "getSlot", "slotId": "ROOT", "depth": 1, "includeComponentData": false}"#.to_string()),
        (Message::new_add_slot(decode::<Slot>(&stub_child("S", "N")).unwrap()), format!(r#"{{"$type": "addSlot", "data": {slot_value}}}"#)),
        (Message::new_update_slot(decode::<Slot>(&stub_child("S", "N")).unwrap()), format!(r#"{{"$type": "updateSlot", "data": {slot_value}}}"#)),
        (Message::new_remove_slot("S"), r#"{"$type": "removeSlot", "slotId": "S"}"#.to_string()),
        (Message::new_get_component("C"), r#"{"$type": "getComponent", "componentId": "C"}"#.to_string()),
        (
            Message::new_add_component(Component::decode(&component.encode()).unwrap(), "S"),
            format!(r#"{{"$type": "addComponent", "data": {component_value}, "containerSlotId": "S"}}"#),
        ),
        (
            Message::new_update_component(Component::decode(&component.encode()).unwrap()),
            format!(r#"{{"$type": "updateComponent", "data": {component_value}}}"#),
        ),
        (Message::new_remove_component("C"), r#"{"$type": "removeComponent", "componentId": "C"}"#.to_string()),
    ];
    for (call, text) in calls {
        assert_bi_eq_json(call, json(&text));
    }
    assert_eq!(
        decode::<Message>(r#"{"$type": "getslot", "slotId": "ROOT"}"#),
        Err(DecodeError::UnknownTag)
    );
}

#[test]
fn every_kind_of_reply_comes_back() {
    let plain = Response {
        kind: ResponseKind::Response,
        source_message_id: Some("x_0".into()),
        success: false,
        error_info: Some("Bad things!".into()),
    };
    assert_bi_eq_json(
        plain,
        json(r#"{"$type": "response", "sourceMessageId": "x_0", "success": false, "errorInfo": "Bad things!"}"#),
    );
    let none = Response {
        kind: ResponseKind::ComponentData { data: None },
        source_message_id: None,
        success: true,
        error_info: None,
    };
    assert_bi_eq_json(
        none,
        json(r#"{"$type": "componentData", "data": null, "sourceMessageId": null, "success": true, "errorInfo": null}"#),
    );
    assert_eq!(
        decode::<Response>(r#"{"$type": "slotData", "depth": 3, "success": true}"#).unwrap(),
        Response {
            kind: ResponseKind::SlotData { depth: 3, data: None },
            source_message_id: None,
            success: true,
            error_info: None,
        }
    );
    assert_eq!(
        decode::<Response>(r#"{"$type": "response", "sourceMessageId": "x_0"}"#),
        Err(DecodeError::MissingField)
    );
    assert_eq!(decode::<Response>(r#"{"success": true}"#), Err(DecodeError::MissingField));
    let reply = decode::<Response>(&root_reply()).unwrap();
    let again = decode::<Response>(&to_value(&reply.encode()).to_string()).unwrap();
    assert_eq!(again, reply);
}

#[test]
fn an_enum_value_keeps_its_type() {
    assert_bi_eq_json(
        Enum { id: "e".into(), value: "Alpha".into(), enum_type: "Blend".into() },
        json(r#"{"id": "e", "value": "Alpha", "enumType": "Blend"}"#),
    );
}

#[test]
fn floats_survive_the_text() {
    let singles = [
        0.0f32, -0.0, 1.0, -1.0, 0.1, 0.5, 1.5, 3.4028235e38, -3.4028235e38, 1.17549435e-38,
        1e-45, 16777216.0, 16777217.0, 0.9914449, -3.7631953e-8, 123456.79,
    ];
    for x in singles {
        let text = serde_json::to_string(&to_value(&single(x).encode())).unwrap();
        assert_eq!(text, serde_json::to_string(&(x as f64)).unwrap());
        assert_eq!(decode::<F32>(&text).unwrap().to_bits(), x.to_bits(), "{text}");
    }
    let doubles = [0.0f64, -0.0, 1.0, 0.1, 1e300, -1e-300, 5e-324, 1.7976931348623157e308];
    for x in doubles {
        let text = serde_json::to_string(&to_value(&double(x).encode())).unwrap();
        assert_eq!(decode::<F64>(&text).unwrap().to_bits(), x.to_bits(), "{text}");
    }
    assert!(single(f32::MAX).to_bits() != F32::inf().to_bits());
    assert!(!single(f32::MAX).is_inf() && !single(f32::MAX).is_val_nan());
    assert!(single(-f32::INFINITY).is_inf() && !single(-f32::INFINITY).is_positive());
    assert!(double(f64::INFINITY).is_inf() && double(f64::INFINITY).is_positive());
    assert!(double(f64::NAN).is_val_nan() && !double(f64::NAN).is_inf());
    assert_eq!(F32::nan().to_bits(), f32::NAN.to_bits());
    assert_eq!(F64::nan().to_bits(), f64::NAN.to_bits());
    assert_eq!(F32::neg_inf().to_bits(), f32::NEG_INFINITY.to_bits());
    assert_eq!(F64::inf().to_bits(), f64::INFINITY.to_bits());
}

#[test]
fn a_whole_tree_survives_the_text() {
    let mut root = decode::<Slot>(&stub_child("Root", "World")).unwrap();
    let mut child = decode::<Slot>(&stub_child("child", "Child")).unwrap();
    child.components.push(Component {
        id: "c".into(),
        is_reference_only: false,
        component_type: "FrooxEngine.Light".into(),
        members: vec![
            ("Color".into(), Member::Color(Field::new("c", Color::default()))),
            ("Intensity".into(), Member::Float(Field::new("i", single(0.75)))),
            (
                "Targets".into(),
                Member::SyncList(SyncList {
                    id: "l".into(),
                    elements: vec![
                        Member::Reference(Reference {
                            id: "r".into(),
                            target_id: None,
                            target_type: "FrooxEngine.Slot".into(),
                        }),
                        Member::SyncObject(SyncObject { id: "o".into(), members: vec![] }),
                    ],
                }),
            ),
        ],
    });
    child.children.push(decode::<Slot>(&stub_child("leaf", "Leaf")).unwrap());
    root.children.push(child);
    let text = serde_json::to_string(&to_value(&root.encode())).unwrap();
    let back = decode::<Slot>(&text).unwrap();
    assert_eq!(back, root);
    let light = &back.children[0].components[0];
    assert_eq!(light.member("Intensity"), Some(&Member::Float(Field::new("i", single(0.75)))));
    assert_eq!(light.member("Range"), None);
    assert_eq!(Slot::root_slot_id(), "Root");
    assert!(back.is_root_slot());
    assert!(!back.children[0].is_root_slot());
}

#[test]
fn the_root_is_known_by_its_id() {
    let mut slot = decode::<Slot>(&stub_child("Root", "Anything")).unwrap();
    assert!(slot.is_root_slot());
    slot.name.value = None;
    assert!(slot.is_root_slot());
    let mut named = decode::<Slot>(&stub_child("Reso_1", "Root")).unwrap();
    assert!(!named.is_root_slot());
    named.id = "root".into();
    assert!(!named.is_root_slot());
    named.id = "Root".into();
    assert!(named.is_root_slot());
}

#[test]
fn a_colour_of_bytes_holds_bytes() {
    assert_eq!(
        decode::<Color32>(r#"{"r": 0, "g": 255, "b": 7, "a": 1}"#),
        Ok(Color32 { r: 0, g: 255, b: 7, a: 1 })
    );
    assert_eq!(
        decode::<Color32>(r#"{"r": 0, "g": 256, "b": 7, "a": 1}"#),
        Err(DecodeError::OutOfRange)
    );
    assert_eq!(decode::<Int4>(r#"{"x": 1, "y": 2, "z": 3}"#), Err(DecodeError::MissingField));
    assert_eq!(decode::<Int3>(r#"[1, 2, 3]"#), Err(DecodeError::WrongType));
}

#[test]
fn members_are_read_in_the_order_of_their_names() {
    let member = |id: &str| {
        Json::Object(vec![
            ("$type".to_string(), Json::String("empty".to_string())),
            ("id".to_string(), Json::String(id.to_string())),
        ])
    };
    let object = |names: &[&str]| {
        Json::Object(vec![
            ("id".to_string(), Json::String("o".to_string())),
            (
                "members".to_string(),
                Json::Object(names.iter().map(|n| (n.to_string(), member(n))).collect()),
            ),
        ])
    };
    let names = ["Scale", "Color", "color", "Intensity", "Col", "Zoom", "Active"];
    let read = SyncObject::decode(&object(&names)).unwrap();
    let got: Vec<&str> = read.members.iter().map(|(n, _)| n.as_str()).collect();
    assert_eq!(got, ["Active", "Col", "Color", "Intensity", "Scale", "Zoom", "color"]);
    for (name, m) in &read.members {
        assert_eq!(m, &Member::Empty(Empty { id: name.clone() }));
    }
    let mut turned = names;
    turned.reverse();
    assert_eq!(SyncObject::decode(&object(&turned)).unwrap(), read);

    // Whatever the order in which a text names the members, the value is one.
    let text = r#"{"id": "c", "isReferenceOnly": false, "componentType": "T", "members": {
        "b": {"$type": "bool", "id": "1", "value": true},
        "a": {"$type": "int", "id": "2", "value": 7}}}"#;
    let other = r#"{"id": "c", "isReferenceOnly": false, "componentType": "T", "members": {
        "a": {"$type": "int", "id": "2", "value": 7},
        "b": {"$type": "bool", "id": "1", "value": true}}}"#;
    let component = decode::<Component>(text).unwrap();
    assert_eq!(component, decode::<Component>(other).unwrap());
    assert_eq!(component.members[0].0, "a");
    let again = serde_json::to_string(&to_value(&component.encode())).unwrap();
    assert_eq!(decode::<Component>(&again).unwrap(), component);
}

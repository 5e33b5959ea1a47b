use chrono::{DateTime, SecondsFormat, Utc};
use entity_snapshot::model::{Entity, Location, Task, TaskStatus, Timestamp};
use entity_snapshot::text::tasks_json;
use serde_json::{from_str, to_string, Number, Value};
use uuid::Uuid;

fn status_of(word: &str) -> TaskStatus {
    match word {
        "Pending" => TaskStatus::Pending,
        "InProgress" => TaskStatus::InProgress,
        "Done" => TaskStatus::Done,
        other => panic!("unknown status {}", other),
    }
}

fn now() -> Timestamp {
    let t = Utc::now();
    Timestamp { secs: t.timestamp(), nanos: t.timestamp_subsec_nanos() }
}

fn entity_value(e: &Entity) -> Value {
    let mut position = serde_json::Map::new();
    position.insert("lat".to_string(), Value::Number(Number::from_f64(f64::from_bits(e.position.lat)).unwrap()));
    position.insert("lon".to_string(), Value::Number(Number::from_f64(f64::from_bits(e.position.lon)).unwrap()));
    let tasks: Value = from_str(&tasks_json(&e.tasks).unwrap()).unwrap();
    let instant: DateTime<Utc> = DateTime::from_timestamp(e.updated_at.secs, e.updated_at.nanos).unwrap();
    let mut entity = serde_json::Map::new();
    entity.insert("id".to_string(), Value::String(Uuid::from_u128(e.id).to_string()));
    entity.insert("name".to_string(), Value::String(e.name.clone()));
    entity.insert("position".to_string(), Value::Object(position));
    entity.insert("tasks".to_string(), tasks);
    entity.insert(
        "updated_at".to_string(),
        Value::String(instant.to_rfc3339_opts(SecondsFormat::Nanos, true)),
    );
    Value::Object(entity)
}

fn entity_of(v: &Value) -> Entity {
    let instant = DateTime::parse_from_rfc3339(v["updated_at"].as_str().unwrap()).unwrap();
    let mut tasks = Vec::new();
    for t in v["tasks"].as_array().unwrap() {
        tasks.push(Task {
            id: Uuid::parse_str(t["id"].as_str().unwrap()).unwrap().as_u128(),
            name: t["name"].as_str().unwrap().to_string(),
            status: status_of(t["status"].as_str().unwrap()),
        });
    }
    Entity {
        id: Uuid::parse_str(v["id"].as_str().unwrap()).unwrap().as_u128(),
        name: v["name"].as_str().unwrap().to_string(),
        position: Location {
            lat: v["position"]["lat"].as_f64().unwrap().to_bits(),
            lon: v["position"]["lon"].as_f64().unwrap().to_bits(),
        },
        tasks,
        updated_at: Timestamp { secs: instant.timestamp(), nanos: instant.timestamp_subsec_nanos() },
    }
}

#[test]
fn entity_entity_json_roundtrip() {
    let e1 = Entity {
        id: Uuid::new_v4().as_u128(),
        name: "Raptor-01".into(),
        position: Location { lat: 47.67f64.to_bits(), lon: (-122.12f64).to_bits() },
        tasks: vec![],
        updated_at: now(),
    };

    let batch = Entity::to_record_batch(&[e1.clone()]).unwrap();
    assert_eq!(batch.num_rows(), 1);

    let json = to_string(&entity_value(&e1)).unwrap();
    let e2: Entity = entity_of(&from_str::<Value>(&json).unwrap());
    assert_eq!(e1, e2);
}

#[test]
fn entity_test_entity_json_roundtrip() {
    let e1 = Entity {
        id: Uuid::new_v4().as_u128(),
        name: "Raptor-01".into(),
        position: Location { lat: 47.67f64.to_bits(), lon: (-122.12f64).to_bits() },
        tasks: vec![],
        updated_at: now(),
    };

    let json = to_string(&entity_value(&e1)).unwrap();
    let e2: Entity = entity_of(&from_str::<Value>(&json).unwrap());
    assert_eq!(e1, e2);
}

#[test]
fn json_roundtrip_keeps_tasks_and_subsecond_time() {
    let e1 = Entity {
        id: 0xa1a2a3a4b1b2c1c2d1d2d3d4d5d6d7d8u128,
        name: "Raptor-02".into(),
        position: Location { lat: 0.1f64.to_bits(), lon: (-0.25f64).to_bits() },
        tasks: vec![
            Task { id: 1, name: "scan \"north\"".into(), status: TaskStatus::InProgress },
            Task { id: 2, name: "return".into(), status: TaskStatus::Pending },
        ],
        updated_at: Timestamp { secs: 1_700_000_000, nanos: 123_456_789 },
    };
    let json = to_string(&entity_value(&e1)).unwrap();
    let e2 = entity_of(&from_str::<Value>(&json).unwrap());
    assert_eq!(e1, e2);
}

use frost::aggregate::{aggregate, finish_sequential};
use frost::chunks::{yearly_chunks, DateChunk};
use frost::dates::Date;
use frost::errors::InputError;
use frost::executor::{new_run, Executor};
use frost::outcome::{FetchFailure, TaskOutcome};
use frost::planner::plan;
use frost::rows::PrecipitationRow;
use frost::semaphore::Semaphore;
use frost::stations::{ElArea, Station};

fn d(year: u32, month: u32, day: u32) -> Date {
    Date { year, month, day }
}

fn station(id: &str, name: &str, area: ElArea) -> Station {
    Station { id: id.to_string(), name: name.to_string(), el_area: area }
}

fn row(station_id: &str, date: &str) -> PrecipitationRow {
    PrecipitationRow {
        station_id: station_id.to_string(),
        station_name: "Somewhere".to_string(),
        el_area: "NO1".to_string(),
        reference_time: date.to_string(),
        precipitation_tenths_mm: Some(12),
        quality_code: Some(0),
    }
}

fn failure(station_id: &str) -> TaskOutcome {
    TaskOutcome::Failure(FetchFailure {
        station_id: station_id.to_string(),
        chunk: DateChunk { start: d(2024, 1, 1), end: d(2024, 2, 1) },
        message: "connection refused".to_string(),
    })
}

#[test]
fn plan_is_the_cross_product() {
    let stations = vec![
        station("SN1", "A", ElArea::NO1),
        station("SN2", "B", ElArea::NO2),
        station("SN3", "C", ElArea::NO3),
    ];
    let chunks = yearly_chunks(&d(2022, 6, 15), &d(2024, 3, 1)).unwrap();
    assert_eq!(chunks.len(), 3);
    let items = plan(&stations, &chunks).unwrap();
    assert_eq!(items.len(), 9);
    for (k, item) in items.iter().enumerate() {
        assert_eq!(item.station.id, stations[k / 3].id);
        assert_eq!(item.chunk.start, chunks[k % 3].start);
        assert_eq!(item.chunk.end, chunks[k % 3].end);
    }
}

#[test]
fn plan_rejects_empty_station_list() {
    let stations: Vec<Station> = Vec::new();
    let chunks = yearly_chunks(&d(2024, 1, 1), &d(2024, 2, 1)).unwrap();
    assert!(matches!(plan(&stations, &chunks), Err(InputError::EmptyInput)));
}

#[test]
fn plan_of_no_chunks_is_empty() {
    let stations = vec![station("SN1", "A", ElArea::NO1)];
    let chunks: Vec<DateChunk> = Vec::new();
    let items = plan(&stations, &chunks).unwrap();
    assert_eq!(items.len(), 0);
}

#[test]
fn plan_is_deterministic() {
    let stations = vec![station("SN1", "A", ElArea::NO1), station("SN2", "B", ElArea::NO2)];
    let chunks = yearly_chunks(&d(2021, 3, 1), &d(2024, 3, 1)).unwrap();
    let a = plan(&stations, &chunks).unwrap();
    let b = plan(&stations, &chunks).unwrap();
    assert_eq!(a.len(), b.len());
    for k in 0..a.len() {
        assert_eq!(a[k].station.id, b[k].station.id);
        assert_eq!(a[k].station.name, b[k].station.name);
        assert_eq!(a[k].chunk.start, b[k].chunk.start);
        assert_eq!(a[k].chunk.end, b[k].chunk.end);
    }
}

#[test]
fn semaphore_counts_permits() {
    let mut gate = Semaphore::new(2);
    assert!(gate.available());
    gate.acquire();
    assert!(gate.available());
    gate.acquire();
    assert!(!gate.available());
    gate.release();
    assert!(gate.available());
}

#[test]
fn executor_never_admits_more_than_the_limit() {
    let stations = vec![station("SN1", "A", ElArea::NO1)];
    let chunks = yearly_chunks(&d(2020, 1, 1), &d(2025, 1, 1)).unwrap();
    let items = plan(&stations, &chunks).unwrap();
    assert_eq!(items.len(), 5);
    let mut exec = Executor::new(items, 2);

    let first = exec.next_task();
    assert!(first.is_some());
    let second = exec.next_task();
    assert!(second.is_some());
    // Both permits are out: nothing more may start until one returns.
    assert!(exec.next_task().is_none());
    exec.record(TaskOutcome::Success(Vec::new()));
    let third = exec.next_task();
    assert!(third.is_some());
    assert!(exec.next_task().is_none());

    exec.record(TaskOutcome::Success(Vec::new()));
    exec.record(TaskOutcome::Success(Vec::new()));
    let fourth = exec.next_task().unwrap();
    let fifth = exec.next_task().unwrap();
    assert_eq!(fourth.station.id, "SN1");
    assert_eq!(fifth.chunk.end, d(2025, 1, 1));
    assert!(exec.next_task().is_none());
    assert!(!exec.is_done());
    exec.record(TaskOutcome::Success(Vec::new()));
    exec.record(TaskOutcome::Success(Vec::new()));
    assert!(exec.is_done());
    let result = exec.finish();
    assert_eq!(result.unwrap().len(), 0);
}

#[test]
fn executor_dispatches_items_in_plan_order() {
    let stations = vec![station("SN1", "A", ElArea::NO1), station("SN2", "B", ElArea::NO2)];
    let chunks = yearly_chunks(&d(2024, 1, 1), &d(2024, 3, 1)).unwrap();
    let items = plan(&stations, &chunks).unwrap();
    let mut exec = Executor::new(items, 4);
    let w1 = exec.next_task().unwrap();
    let w2 = exec.next_task().unwrap();
    assert_eq!(w1.station.id, "SN1");
    assert_eq!(w2.station.id, "SN2");
    assert!(exec.next_task().is_none());
}

#[test]
fn one_failure_among_ten_discards_all_rows() {
    let mut outcomes: Vec<TaskOutcome> = Vec::new();
    for i in 0..9 {
        outcomes.push(TaskOutcome::Success(vec![row("SN1", "2024-01-01"); i + 1]));
    }
    outcomes.push(failure("SN9"));
    let r = aggregate(outcomes);
    let err = r.err().expect("a failing batch must report failure");
    assert_eq!(err.failure_count, 1);
    assert_eq!(err.message, "SN9 2024-01-01..2024-02-01: connection refused");
}

#[test]
fn failure_listing_is_newline_joined_and_ordered() {
    let outcomes = vec![
        failure("SN1"),
        TaskOutcome::Success(vec![row("SN2", "2024-01-02")]),
        failure("SN3"),
    ];
    let err = aggregate(outcomes).err().unwrap();
    assert_eq!(err.failure_count, 2);
    assert_eq!(
        err.message,
        "SN1 2024-01-01..2024-02-01: connection refused\nSN3 2024-01-01..2024-02-01: connection refused"
    );
}

#[test]
fn all_success_concatenates_every_row() {
    let ks = [3usize, 1, 4, 1, 5];
    let mut outcomes: Vec<TaskOutcome> = Vec::new();
    for (t, k) in ks.iter().enumerate() {
        let rows: Vec<PrecipitationRow> =
            (0..*k).map(|i| row(&format!("SN{t}"), &format!("2024-01-0{}", i + 1))).collect();
        outcomes.push(TaskOutcome::Success(rows));
    }
    let rows = aggregate(outcomes).unwrap();
    assert_eq!(rows.len(), 3 + 1 + 4 + 1 + 5);
    // Row multiset check: count rows per station id.
    for (t, k) in ks.iter().enumerate() {
        let id = format!("SN{t}");
        assert_eq!(rows.iter().filter(|r| r.station_id == id).count(), *k);
    }
}

#[test]
fn empty_outcome_list_aggregates_to_no_rows() {
    let rows = aggregate(Vec::new()).unwrap();
    assert_eq!(rows.len(), 0);
}

#[test]
fn sequential_and_parallel_agree_on_a_single_task() {
    // One station, a range inside one calendar year: the plan is a
    // single work item. Feed both paths the same fetch outcome.
    let stations = vec![station("SN18700", "Oslo - Blindern", ElArea::NO1)];
    let from = d(2024, 1, 1);
    let to = d(2024, 2, 1);
    let fetched = vec![row("SN18700", "2024-01-01"), row("SN18700", "2024-01-02")];

    let mut exec = new_run(&stations, &from, &to, 4).unwrap();
    let w = exec.next_task().unwrap();
    assert_eq!(w.station.id, "SN18700");
    assert!(exec.next_task().is_none());
    exec.record(TaskOutcome::Success(fetched.clone()));
    assert!(exec.is_done());
    let parallel_rows = exec.finish().unwrap();

    let sequential_rows = finish_sequential(TaskOutcome::Success(fetched)).unwrap();

    assert_eq!(parallel_rows.len(), sequential_rows.len());
    for k in 0..parallel_rows.len() {
        assert_eq!(parallel_rows[k].station_id, sequential_rows[k].station_id);
        assert_eq!(parallel_rows[k].reference_time, sequential_rows[k].reference_time);
        assert_eq!(
            parallel_rows[k].precipitation_tenths_mm,
            sequential_rows[k].precipitation_tenths_mm
        );
    }
}

#[test]
fn sequential_failure_is_a_single_element_listing() {
    let r = finish_sequential(failure("SN18700"));
    let err = r.err().unwrap();
    assert_eq!(err.failure_count, 1);
    assert_eq!(err.message, "SN18700 2024-01-01..2024-02-01: connection refused");
}

#[test]
fn new_run_validates_before_any_work() {
    let stations = vec![station("SN1", "A", ElArea::NO1)];
    assert!(matches!(
        new_run(&stations, &d(2024, 2, 1), &d(2024, 1, 1), 4),
        Err(InputError::InvalidInput)
    ));
    assert!(matches!(
        new_run(&Vec::new(), &d(2024, 1, 1), &d(2024, 2, 1), 4),
        Err(InputError::EmptyInput)
    ));
    assert!(new_run(&stations, &d(2024, 1, 1), &d(2024, 2, 1), 4).is_ok());
}

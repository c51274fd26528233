use weih::artifact::{Artifact, ArtifactOrderByField, ArtifactState};
use weih::context::ContextOrderByField;
use weih::execution::ExecutionOrderByField;
use weih::hook::{
    ArtifactDetailHookInput, HookInput, HookOpt, HookRunner, ItemType,
};
use weih::plot::{PlotHistogramQuery, PlotScatterQuery};
use weih::query::{GetContextsQuery, GetEventsQuery};
use weih::web::Link;

fn events_query() -> GetEventsQuery {
    GetEventsQuery { artifact: None, execution: None, limit: None, offset: None, asc: false }
}

#[test]
fn events_query_defaults() {
    let q = events_query();
    assert_eq!(q.limit(), 100);
    assert_eq!(q.offset(), 0);
    assert_eq!(q.to_url(), "/events/?limit=100&offset=0&asc=false");
}

#[test]
fn events_query_url_with_filters() {
    let q = events_query().artifact(3).execution(9).order_by_ctime(true);
    assert_eq!(q.to_url(), "/events/?limit=100&offset=0&asc=true&artifact=3&execution=9");
}

#[test]
fn events_query_paging() {
    let mut q = events_query();
    q.limit = Some(10);
    q.offset = Some(25);
    let next = q.next();
    assert_eq!(next.offset, Some(35));
    let prev = q.prev();
    assert_eq!(prev.offset, Some(15));
    let mut first = q;
    first.offset = Some(3);
    // Moving back from inside the first page stops at zero.
    assert_eq!(first.prev().offset, Some(0));
}

#[test]
fn events_query_filters_reset_offset() {
    let mut q = events_query();
    q.offset = Some(40);
    assert_eq!(q.artifact(1).offset, None);
    assert_eq!(q.execution(1).offset, None);
    assert_eq!(q.order_by_ctime(false).offset, None);
}

#[test]
fn contexts_query_paging_and_filters() {
    let q = GetContextsQuery {
        type_label: Some("Pipeline".to_string()),
        name: None,
        execution: Some(4),
        artifact: None,
        limit: Some(20),
        offset: Some(60),
        order_by: ContextOrderByField::Id,
        asc: true,
    };
    assert_eq!(q.limit(), 20);
    assert_eq!(q.offset(), 60);
    assert_eq!(q.next().offset, Some(80));
    assert_eq!(q.prev().offset, Some(40));
    let f = q.filter_type("Run");
    assert_eq!(f.type_label.as_deref(), Some("Run"));
    assert_eq!(f.offset, None);
    assert_eq!(f.execution, Some(4));
    let o = q.order_by(ContextOrderByField::UpdateTime, false);
    assert_eq!(o.order_by, ContextOrderByField::UpdateTime);
    assert!(!o.asc);
    assert_eq!(o.offset, None);
}

fn histogram_query() -> PlotHistogramQuery {
    PlotHistogramQuery {
        type_label: None,
        name: None,
        context: None,
        limit: None,
        offset: None,
        order_by: ArtifactOrderByField::Id,
        asc: false,
        metric: None,
        group_key: None,
        group_value: None,
        do_plot: false,
    }
}

#[test]
fn histogram_url_minimal() {
    assert_eq!(histogram_query().to_url(), "/plot/histogram?asc=false&order-by=id");
}

#[test]
fn histogram_url_full() {
    let mut q = histogram_query();
    q.type_label = Some("a+b".to_string());
    q.name = Some("n".to_string());
    q.context = Some(7);
    q.limit = Some(50);
    q.offset = Some(5);
    q.order_by = ArtifactOrderByField::UpdateTime;
    q.asc = true;
    let q = q.metric("loss").group("stage", "train").do_plot();
    assert_eq!(
        q.to_url(),
        "/plot/histogram?asc=true&context=7&limit=50&name=n&offset=5&order-by=update-time\
         &type=a%2Bb&metric=loss&group-key=stage&group-value=train&do-plot=true"
    );
}

fn scatter_query() -> PlotScatterQuery {
    PlotScatterQuery {
        type_label: None,
        name: None,
        context: None,
        limit: None,
        offset: None,
        order_by: ArtifactOrderByField::Id,
        asc: false,
        x_filter_key: None,
        x_filter_value: None,
        x_metric: None,
        y_filter_key: None,
        y_filter_value: None,
        y_metric: None,
        join_key: None,
        do_plot: false,
    }
}

#[test]
fn scatter_url_minimal() {
    assert_eq!(scatter_query().to_url(), "/plot/scatter?asc=false&order-by=id");
}

#[test]
fn scatter_url_full() {
    let q = scatter_query()
        .x_metric("loss")
        .y_metric("acc")
        .join_key("run")
        .x_filter("stage", "train")
        .y_filter("stage", "test")
        .do_plot();
    assert_eq!(
        q.to_url(),
        "/plot/scatter?asc=false&order-by=id&x-metric=loss&y-metric=acc&join-key=run\
         &x-filter-key=stage&y-filter-key=stage&x-filter-value=train&y-filter-value=test\
         &do-plot=true"
    );
}

#[test]
fn order_by_names() {
    let mut q = histogram_query();
    q.order_by = ArtifactOrderByField::Name;
    assert_eq!(q.to_url(), "/plot/histogram?asc=false&order-by=name");
    q.order_by = ArtifactOrderByField::CreateTime;
    assert_eq!(q.to_url(), "/plot/histogram?asc=false&order-by=create-time");
}

fn hook_opt(item_type: ItemType, type_label: &str, command: &str) -> HookOpt {
    HookOpt {
        item_type,
        type_label: type_label.to_string(),
        command: command.to_string(),
        args: vec!["--fast".to_string()],
    }
}

#[test]
fn hook_runner_selects_by_key() {
    let opts = vec![
        hook_opt(ItemType::Artifact, "Model", "summarize"),
        hook_opt(ItemType::Execution, "Train", "trace"),
    ];
    let runner = HookRunner::new(&opts, "sqlite://db");
    let cmd = runner.find_command(ItemType::Artifact, "Model").unwrap();
    assert_eq!(cmd.path, "summarize");
    assert_eq!(cmd.args, vec!["--fast".to_string()]);
    assert_eq!(cmd.envs, vec![("WEIH_MLMD_DB".to_string(), "sqlite://db".to_string())]);
    let cmd = runner.find_command(ItemType::Execution, "Train").unwrap();
    assert_eq!(cmd.path, "trace");
    assert!(runner.find_command(ItemType::Context, "Model").is_none());
    assert!(runner.find_command(ItemType::Artifact, "Other").is_none());
}

#[test]
fn hook_runner_last_registration_wins() {
    let opts = vec![
        hook_opt(ItemType::Artifact, "Model", "first"),
        hook_opt(ItemType::Artifact, "Model", "second"),
    ];
    let runner = HookRunner::new(&opts, "uri");
    assert_eq!(runner.find_command(ItemType::Artifact, "Model").unwrap().path, "second");
}

fn sample_artifact(type_label: &str) -> Artifact {
    Artifact {
        id: 1,
        name: None,
        type_label: type_label.to_string(),
        uri: None,
        state: ArtifactState::Live,
        ctime: 0,
        mtime: 0,
        properties: Vec::new(),
        custom_properties: Vec::new(),
        extra_properties: Vec::new(),
        summary: None,
    }
}

#[test]
fn hook_input_classification() {
    let detail = HookInput::ArtifactDetail(ArtifactDetailHookInput {
        artifact: sample_artifact("Model"),
    });
    assert_eq!(detail.item_type(), ItemType::Artifact);
    assert_eq!(detail.type_label(), "Model");
    let summary = HookInput::ArtifactSummary(vec![sample_artifact("DataSet")]);
    assert_eq!(summary.item_type(), ItemType::Artifact);
    assert_eq!(summary.type_label(), "DataSet");
}

#[test]
fn order_field_parsing() {
    assert_eq!(ArtifactOrderByField::from_text("id"), Some(ArtifactOrderByField::Id));
    assert_eq!(ArtifactOrderByField::from_text("name"), Some(ArtifactOrderByField::Name));
    assert_eq!(ArtifactOrderByField::from_text("ctime"), Some(ArtifactOrderByField::CreateTime));
    assert_eq!(ArtifactOrderByField::from_text("mtime"), Some(ArtifactOrderByField::UpdateTime));
    assert_eq!(ArtifactOrderByField::from_text("bogus"), None);
    assert_eq!(ExecutionOrderByField::from_text("ctime"), Some(ExecutionOrderByField::CreateTime));
    assert_eq!(ContextOrderByField::from_text("mtime"), Some(ContextOrderByField::UpdateTime));
    assert_eq!(ContextOrderByField::from_text(""), None);
}

#[test]
fn item_type_parsing() {
    assert_eq!(ItemType::from_text("artifact"), Some(ItemType::Artifact));
    assert_eq!(ItemType::from_text("execution"), Some(ItemType::Execution));
    assert_eq!(ItemType::from_text("context"), Some(ItemType::Context));
    assert_eq!(ItemType::from_text("Artifact"), None);
}

#[test]
fn link_markdown_forms() {
    assert_eq!(Link::ArtifactType(3).to_markdown(), "[3](/artifact_types/3)");
    assert_eq!(Link::ExecutionType(12).to_markdown(), "[12](/execution_types/12)");
    assert_eq!(Link::ContextType(0).to_markdown(), "[0](/context_types/0)");
}

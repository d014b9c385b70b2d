use coin_backend::export::export_format;
use coin_backend::export::generate_csv;
use coin_backend::export::get_headers;
use coin_backend::export::get_submission_row;
use coin_backend::export::ExportFormat;
use coin_backend::export::SubmissionDetail;

fn sample_detail() -> SubmissionDetail {
    SubmissionDetail {
        submission_id: "67e55044-10b1-426f-9247-bb680e5fe0c8".to_string(),
        submitted_at: "2024-03-01T10:00:00+00:00".to_string(),
        semester: "EVEN-2024".to_string(),
        hackathon_name: "Smart India Hackathon".to_string(),
        team_name: "Team Rocket".to_string(),
        participant_count: 4,
        mentor_count: 1,
        participant_name: Some("Asha".to_string()),
        participant_email: Some("asha@srec.ac.in".to_string()),
        participant_department: None,
        participant_year: Some("2".to_string()),
        mentor_names: Some("Dr. Rao".to_string()),
        mentor_departments: None,
        external_confirmed: true,
        status: "submitted".to_string(),
    }
}

#[test]
fn headers_are_the_fifteen_export_columns() {
    let h = get_headers();
    assert_eq!(h.len(), 15);
    assert_eq!(h[0], "submission_id");
    assert_eq!(h[5], "participant_count");
    assert_eq!(h[14], "status");
}

#[test]
fn submission_row_renders_every_cell() {
    let row = get_submission_row(&sample_detail());
    assert_eq!(
        row,
        vec![
            "67e55044-10b1-426f-9247-bb680e5fe0c8",
            "2024-03-01T10:00:00+00:00",
            "EVEN-2024",
            "Smart India Hackathon",
            "Team Rocket",
            "4",
            "1",
            "Asha",
            "asha@srec.ac.in",
            "",
            "2",
            "Dr. Rao",
            "",
            "true",
            "submitted",
        ]
    );
}

#[test]
fn negative_and_large_counts_render_in_decimal() {
    let mut d = sample_detail();
    d.participant_count = -5;
    d.mentor_count = 2_147_483_647;
    let row = get_submission_row(&d);
    assert_eq!(row[5], "-5");
    assert_eq!(row[6], "2147483647");
    d.mentor_count = i32::MIN;
    assert_eq!(get_submission_row(&d)[6], "-2147483648");
    d.mentor_count = 0;
    assert_eq!(get_submission_row(&d)[6], "0");
}

#[test]
fn csv_export_encodes_header_and_rows() {
    let bytes = generate_csv(vec![sample_detail()]).unwrap();
    let text = String::from_utf8(bytes).unwrap();
    let mut lines = text.lines();
    assert_eq!(
        lines.next().unwrap(),
        "submission_id,submitted_at,semester,hackathon_name,team_name,participant_count,\
         mentor_count,participant_name,participant_email,participant_department,\
         participant_year,mentor_names,mentor_departments,external_confirmed,status"
    );
    assert_eq!(
        lines.next().unwrap(),
        "67e55044-10b1-426f-9247-bb680e5fe0c8,2024-03-01T10:00:00+00:00,EVEN-2024,\
         Smart India Hackathon,Team Rocket,4,1,Asha,asha@srec.ac.in,,2,Dr. Rao,,true,submitted"
    );
    assert!(lines.next().is_none());
}

#[test]
fn csv_export_quotes_fields_with_commas() {
    let mut d = sample_detail();
    d.team_name = "Rocket, The Team".to_string();
    let bytes = generate_csv(vec![d]).unwrap();
    let text = String::from_utf8(bytes).unwrap();
    assert!(text.contains("\"Rocket, The Team\""));
}

#[test]
fn csv_export_of_no_submissions_is_just_the_header() {
    let bytes = generate_csv(vec![]).unwrap();
    let text = String::from_utf8(bytes).unwrap();
    assert_eq!(text.lines().count(), 1);
}

#[test]
fn format_selection_defaults_to_csv() {
    assert_eq!(export_format(None), ExportFormat::Csv);
    assert_eq!(export_format(Some("csv")), ExportFormat::Csv);
    assert_eq!(export_format(Some("pdf")), ExportFormat::Csv);
    assert_eq!(export_format(Some("xlsx")), ExportFormat::Xlsx);
}

#[test]
fn format_metadata_matches_the_response_headers() {
    assert_eq!(ExportFormat::Csv.content_type(), "text/csv");
    assert_eq!(
        ExportFormat::Xlsx.content_type(),
        "application/vnd.openxmlformats-officedocument.spreadsheetml.sheet"
    );
    assert_eq!(ExportFormat::Csv.file_name(), "export.csv");
    assert_eq!(ExportFormat::Xlsx.file_name(), "export.xlsx");
}

use ojt_timesheet::categories::{category_hours, category_line_count, CATEGORY_COUNT};
use ojt_timesheet::geometry::{CHART_ROWS, POINT, ROW_HEIGHT};
use ojt_timesheet::{
    build_plan, compose_plan, generate_date_strings, CalendarError, DrawingPlan, DrawingPrimitive,
    FillColor, FontWeight, FormParameters,
};

fn ticks(points: f64) -> i128 {
    (points * 66.0).round() as i128
}

fn form(year: i32, month: u32, coordinator: &str) -> FormParameters {
    FormParameters { year, month, coordinator: coordinator.to_string() }
}

fn march_2024() -> DrawingPlan {
    build_plan(&form(2024, 3, "Kris Pike")).unwrap()
}

fn bold_text(x: f64, y: f64, content: &str, size: f64) -> DrawingPrimitive {
    DrawingPrimitive::Text {
        x: ticks(x),
        y: ticks(y),
        content: content.to_string(),
        weight: FontWeight::Bold,
        size: ticks(size),
    }
}

fn regular_text(x: f64, y: f64, content: &str, size: f64) -> DrawingPrimitive {
    DrawingPrimitive::Text {
        x: ticks(x),
        y: ticks(y),
        content: content.to_string(),
        weight: FontWeight::Regular,
        size: ticks(size),
    }
}

fn rule(x1: f64, y1: f64, x2: f64, y2: f64, width: f64) -> DrawingPrimitive {
    DrawingPrimitive::Line {
        x1: ticks(x1),
        y1: ticks(y1),
        x2: ticks(x2),
        y2: ticks(y2),
        stroke_width: ticks(width),
    }
}

fn is_date_cell(primitive: &DrawingPrimitive) -> bool {
    match primitive {
        DrawingPrimitive::Text { x, weight, size, .. } => {
            *x == ticks(53.0) && *weight == FontWeight::Regular && *size == ticks(7.5)
        }
        _ => false,
    }
}

#[test]
fn unit_is_a_sixty_sixth_of_a_point() {
    assert_eq!(POINT, 66);
    assert_eq!(ROW_HEIGHT * 33, ticks(653.5) - ticks(211.5));
    assert_eq!(CHART_ROWS, 33);
}

#[test]
fn plan_of_march_2024_has_every_primitive() {
    let plan = march_2024();
    assert_eq!(plan.len(), 156);
    assert_eq!(plan.primitives.len(), 156);
}

#[test]
fn frame_comes_first() {
    let plan = march_2024();
    assert_eq!(plan.primitives[0], rule(306.0, 0.0, 306.0, 792.0, 0.5));
    assert_eq!(
        plan.primitives[1],
        DrawingPrimitive::Rect {
            left: ticks(50.0),
            bottom: ticks(210.0),
            right: ticks(300.0),
            top: ticks(655.0),
            stroke_width: ticks(0.5),
            fill: None,
        }
    );
    assert_eq!(
        plan.primitives[2],
        DrawingPrimitive::Rect {
            left: ticks(51.5),
            bottom: ticks(211.5),
            right: ticks(298.5),
            top: ticks(653.5),
            stroke_width: ticks(0.5),
            fill: None,
        }
    );
}

#[test]
fn grid_has_thirty_three_rows_and_seven_columns() {
    let plan = march_2024();
    for row in 1..=33usize {
        let y = 13959 + 884 * row as i128;
        assert_eq!(
            plan.primitives[2 + row],
            DrawingPrimitive::Line { x1: 3399, y1: y, x2: 19701, y2: y, stroke_width: 33 }
        );
    }
    assert_eq!(plan.primitives[35], rule(51.5, 653.5, 298.5, 653.5, 0.5));
    for column in 0..7usize {
        let x = 98.0 + 25.0 * column as f64;
        assert_eq!(plan.primitives[36 + column], rule(x, 211.5, x, 653.5, 0.5));
    }
}

#[test]
fn delimiters_are_heavier() {
    let plan = march_2024();
    assert_eq!(plan.primitives[43], rule(273.0, 211.5, 273.0, 653.5, 1.0));
    assert_eq!(plan.primitives[44], rule(98.0, 211.5, 98.0, 653.5, 1.0));
    assert_eq!(plan.primitives[45], rule(51.5, 653.5, 298.5, 653.5, 1.5));
    let second = 43131 - 884;
    assert_eq!(
        plan.primitives[46],
        DrawingPrimitive::Line { x1: 3399, y1: second, x2: 19701, y2: second, stroke_width: 99 }
    );
}

#[test]
fn legend_box_is_filled_grey() {
    let plan = march_2024();
    assert_eq!(
        plan.primitives[47],
        DrawingPrimitive::Rect {
            left: ticks(313.0),
            bottom: ticks(210.0),
            right: ticks(562.0),
            top: ticks(260.0),
            stroke_width: ticks(1.5),
            fill: Some(FillColor::LightGrey),
        }
    );
}

#[test]
fn date_column_lists_the_days_of_the_month() {
    let plan = march_2024();
    let labels = generate_date_strings(2024, 3).unwrap();
    for (index, label) in labels.iter().enumerate() {
        assert_eq!(
            plan.primitives[48 + index],
            DrawingPrimitive::Text {
                x: ticks(53.0),
                y: ticks(653.5) - ticks(22.0) - 884 * index as i128,
                content: label.clone(),
                weight: FontWeight::Regular,
                size: ticks(7.5),
            }
        );
    }
    assert_eq!(plan.primitives[48], regular_text(53.0, 631.5, "Fri, Mar 1", 7.5));
    match &plan.primitives[78] {
        DrawingPrimitive::Text { content, y, .. } => {
            assert_eq!(content, "Sun, Mar 31");
            assert_eq!(*y, 41679 - 884 * 30);
        }
        other => panic!("not a text run: {:?}", other),
    }
}

#[test]
fn date_cells_match_the_days_and_fit_the_chart() {
    for year in [1900, 2023, 2024, 2100] {
        for month in 1..=12u32 {
            let plan = build_plan(&form(year, month, "A")).unwrap();
            let cells = plan.primitives.iter().filter(|p| is_date_cell(p)).count();
            assert_eq!(cells, generate_date_strings(year, month).unwrap().len());
            assert!(cells <= 33);
            assert_eq!(plan.len(), 125 + cells);
        }
    }
}

#[test]
fn header_row_names_the_columns() {
    let plan = march_2024();
    assert_eq!(plan.primitives[79], bold_text(64.0, 644.0, "Days", 7.5));
    let letters = ["A", "B", "C", "D", "E", "F", "G"];
    for (column, letter) in letters.iter().enumerate() {
        assert_eq!(
            plan.primitives[80 + column],
            bold_text(107.0 + 25.0 * column as f64, 644.0, letter, 10.0)
        );
    }
    assert_eq!(plan.primitives[87], bold_text(275.0, 645.5, "TOTAL", 6.0));
    assert_eq!(plan.primitives[88], bold_text(58.0, 214.5, "TOTAL", 9.0));
}

#[test]
fn legend_text_stands_in_the_box() {
    let plan = march_2024();
    assert_eq!(
        plan.primitives[89],
        bold_text(318.0, 250.0, "PRINT CLEARLY                          USE FULL HOURS ONLY", 9.0)
    );
    assert_eq!(
        plan.primitives[90],
        regular_text(363.0, 232.0, "Make sure A through G totals are in the", 9.0)
    );
    assert_eq!(
        plan.primitives[91],
        regular_text(363.0, 220.0, "TOTAL on the bottom and on the right", 9.0)
    );
}

#[test]
fn form_fields_carry_the_month_in_words() {
    let plan = march_2024();
    assert_eq!(plan.primitives[92], bold_text(50.0, 695.0, "Apprentice Name:", 9.0));
    assert_eq!(plan.primitives[93], rule(130.0, 692.0, 280.0, 692.0, 1.0));
    assert_eq!(plan.primitives[94], bold_text(350.0, 695.0, "Employer:", 9.0));
    assert_eq!(plan.primitives[95], rule(397.0, 692.0, 550.0, 692.0, 1.0));
    assert_eq!(plan.primitives[96], bold_text(50.0, 680.0, "Hourly Wage:", 9.0));
    assert_eq!(
        plan.primitives[97],
        regular_text(
            115.0,
            680.0,
            "[   ] Below Average   [   ] Average   [   ] Above Average",
            9.0
        )
    );
    assert_eq!(plan.primitives[98], bold_text(350.0, 680.0, "School Year:", 9.0));
    assert_eq!(
        plan.primitives[99],
        regular_text(410.0, 680.0, "[   ] 1   [   ] 2   [   ] 3   [   ] 4", 9.0)
    );
    assert_eq!(plan.primitives[100], bold_text(50.0, 665.0, "   OJT Month:", 9.0));
    assert_eq!(plan.primitives[101], regular_text(110.0, 665.0, " March 2024", 9.0));
    assert_eq!(plan.primitives[102], rule(110.0, 662.0, 210.0, 662.0, 1.0));
}

#[test]
fn introduction_and_reminder_run_beside_the_chart() {
    let plan = march_2024();
    assert_eq!(
        plan.primitives[103],
        regular_text(
            313.0,
            645.5,
            "The Manasota Plumbing Apprenticeship Program requires 8,000",
            9.0
        )
    );
    assert_eq!(
        plan.primitives[107],
        regular_text(313.0, 597.5, "to satisfy the Program requirements.", 9.0)
    );
    assert_eq!(
        plan.primitives[108],
        regular_text(
            313.0,
            563.5,
            "You are required to turn in one sheet for each of the twelve",
            9.0
        )
    );
    assert_eq!(
        plan.primitives[109],
        regular_text(313.0, 551.5, "months before the 10th of the following month.", 9.0)
    );
}

#[test]
fn category_offsets_accumulate_the_lines_before() {
    let plan = march_2024();
    assert_eq!(plan.primitives[110], bold_text(313.0, 527.5, "A", 9.0));
    assert_eq!(plan.primitives[111], regular_text(328.0, 527.5, "Safety", 9.0));
    assert_eq!(plan.primitives[112], regular_text(550.0, 527.5, "   300", 9.0));
    assert_eq!(plan.primitives[113], bold_text(313.0, 497.5, "B", 9.0));
    assert_eq!(
        plan.primitives[115],
        regular_text(328.0, 485.5, "supplies, machinery and equipment for the trade.", 9.0)
    );
    assert_eq!(plan.primitives[116], regular_text(550.0, 485.5, "1,400", 9.0));
    assert_eq!(plan.primitives[124], bold_text(313.0, 383.5, "E", 9.0));
    assert_eq!(
        plan.primitives[125],
        regular_text(
            328.0,
            383.5,
            "Determining kinds of pipe and proper installation for",
            9.0
        )
    );
    assert_eq!(plan.primitives[127], regular_text(328.0, 359.5, "installations.", 9.0));
    assert_eq!(plan.primitives[128], regular_text(550.0, 359.5, "1,600", 9.0));
    assert_eq!(plan.primitives[132], bold_text(313.0, 299.5, "G", 9.0));
    assert_eq!(
        plan.primitives[133],
        regular_text(328.0, 299.5, "Trouble shooting and repairs", 9.0)
    );
    assert_eq!(plan.primitives[134], regular_text(550.0, 299.5, "   600", 9.0));
}

#[test]
fn category_hours_add_up_to_the_printed_total() {
    let mut sum = 0;
    let mut lines = 0;
    for index in 0..CATEGORY_COUNT {
        sum += category_hours(index);
        lines += category_line_count(index);
    }
    assert_eq!(sum, 8000);
    assert_eq!(lines, 11);
    let plan = march_2024();
    assert_eq!(plan.primitives[135], rule(520.0, 286.5, 573.0, 286.5, 1.0));
    assert_eq!(
        plan.primitives[136],
        bold_text(429.5, 269.5, "TOTAL HOURS REQUIRED: 8,000", 9.0)
    );
    let printed: Vec<&str> = [112, 116, 120, 123, 128, 131, 134]
        .iter()
        .map(|&index| match &plan.primitives[index] {
            DrawingPrimitive::Text { content, .. } => content.as_str(),
            other => panic!("not a text run: {:?}", other),
        })
        .collect();
    assert_eq!(printed, vec!["   300", "1,400", "2,100", "1,200", "1,600", "   800", "   600"]);
}

#[test]
fn evaluation_rates_five_qualities() {
    let plan = march_2024();
    assert_eq!(
        plan.primitives[137],
        bold_text(195.0, 190.0, "EMPLOYER / SUPERVISOR ON-THE-JOB EVALUATION", 9.0)
    );
    let qualities =
        ["Work Habits:", "Dependability:", "Trade Knowledge:", "Attitude:", "Cooperation:"];
    for (index, quality) in qualities.iter().enumerate() {
        let y = 190.0 - 18.0 * (index as f64 + 1.0);
        assert_eq!(plan.primitives[138 + 2 * index], bold_text(165.0, y, quality, 9.0));
        assert_eq!(
            plan.primitives[139 + 2 * index],
            regular_text(
                255.0,
                y,
                "[   ] Below Average   [   ] Average   [   ] Above Average",
                9.0
            )
        );
    }
}

#[test]
fn signature_block_stands_at_the_foot() {
    let plan = march_2024();
    assert_eq!(
        plan.primitives[148],
        bold_text(80.0, 50.0, "Employer / Supervisor Signature", 9.0)
    );
    assert_eq!(plan.primitives[149], bold_text(340.0, 50.0, "Title", 9.0));
    assert_eq!(plan.primitives[150], bold_text(490.0, 50.0, "Date", 9.0));
    assert_eq!(plan.primitives[151], rule(50.0, 60.0, 250.0, 60.0, 1.0));
    assert_eq!(plan.primitives[152], rule(300.0, 60.0, 400.0, 60.0, 1.0));
    assert_eq!(plan.primitives[153], rule(450.0, 60.0, 550.0, 60.0, 1.0));
}

#[test]
fn heading_names_the_coordinator_in_upper_case() {
    let plan = march_2024();
    assert_eq!(plan.primitives[154], bold_text(233.0, 742.0, "Monthly OJT Form", 15.0));
    assert_eq!(
        plan.primitives[155],
        bold_text(213.0, 727.0, "Return to: KRIS PIKE, COORDINATOR", 9.0)
    );
}

#[test]
fn coordinator_line_moves_left_by_three_points_a_character() {
    let empty = build_plan(&form(2024, 3, "")).unwrap();
    assert_eq!(empty.primitives[155], bold_text(240.0, 727.0, "Return to: , COORDINATOR", 9.0));
    let long = build_plan(&form(2024, 3, &"x".repeat(100))).unwrap();
    match &long.primitives[155] {
        DrawingPrimitive::Text { x, .. } => assert_eq!(*x, ticks(240.0) - 100 * ticks(3.0)),
        other => panic!("not a text run: {:?}", other),
    }
    let accented = build_plan(&form(2024, 3, "Zoë")).unwrap();
    assert_eq!(
        accented.primitives[155],
        bold_text(231.0, 727.0, "Return to: ZOË, COORDINATOR", 9.0)
    );
}

#[test]
fn building_twice_gives_the_same_plan() {
    let parameters = form(2024, 12, "Kris Pike");
    let first = build_plan(&parameters).unwrap();
    let second = build_plan(&parameters.clone()).unwrap();
    assert_eq!(first.len(), second.len());
    assert_eq!(first, second);
}

#[test]
fn invalid_month_gives_no_plan() {
    assert_eq!(
        build_plan(&form(2024, 0, "Kris Pike")),
        Err(CalendarError::InvalidCalendarInput { year: 2024, month: 0 })
    );
    assert_eq!(
        build_plan(&form(2024, 13, "Kris Pike")),
        Err(CalendarError::InvalidCalendarInput { year: 2024, month: 13 })
    );
    assert_eq!(
        build_plan(&form(300000, 1, "Kris Pike")),
        Err(CalendarError::InvalidCalendarInput { year: 300000, month: 1 })
    );
}

#[test]
fn fill_is_drawn_before_any_text() {
    let plan = march_2024();
    let first_text = plan
        .primitives
        .iter()
        .position(|p| matches!(p, DrawingPrimitive::Text { .. }))
        .unwrap();
    for (index, primitive) in plan.primitives.iter().enumerate() {
        if let DrawingPrimitive::Rect { fill: Some(_), .. } = primitive {
            assert!(index < first_text);
        }
    }
    assert_eq!(first_text, 48);
}

#[test]
fn composing_takes_the_variable_parts_as_given() {
    let labels = vec!["one".to_string(), "two".to_string()];
    let plan = compose_plan(&labels, "Brumaire 8", 2, "ab");
    assert_eq!(plan.len(), 127);
    assert_eq!(plan.primitives[48], regular_text(53.0, 631.5, "one", 7.5));
    assert_eq!(
        plan.primitives[49],
        DrawingPrimitive::Text {
            x: ticks(53.0),
            y: 41679 - 884,
            content: "two".to_string(),
            weight: FontWeight::Regular,
            size: ticks(7.5),
        }
    );
    assert_eq!(plan.primitives[72], regular_text(110.0, 665.0, " Brumaire 8", 9.0));
    assert_eq!(plan.primitives[126], bold_text(234.0, 727.0, "Return to: ab, COORDINATOR", 9.0));
}
